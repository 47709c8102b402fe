//! The protocol under which the memory of a tensor buffer is read and
//! written: lock, ask for the size, copy, unlock.

use crate::bindings::{
    LiteRtHandle, LiteRtStatus, LiteRtStatus_kLiteRtStatusErrorInvalidArgument,
    LiteRtStatus_kLiteRtStatusErrorRuntimeFailure, LiteRtStatus_kLiteRtStatusOk, Reply,
};
use crate::error::{check_status, Error, ErrorCause};
use crate::tensor_buffer::{compatible, HostType, LockMode, TensorBuffer, TensorBufferView};
use vstd::prelude::*;

verus! {

/// The error of an access that offers too little room: the buffer for the
/// data of a write, the destination for the buffer's content in a read.
pub open spec fn too_small() -> Error {
    Error {
        cause: ErrorCause::TensorBufferTooSmall,
        litert_status: LiteRtStatus_kLiteRtStatusErrorRuntimeFailure,
    }
}

/// The error of an access with a host type that the buffer's element type
/// is not compatible with.
pub open spec fn incompatible(mode: LockMode) -> Error {
    Error {
        cause: match mode {
            LockMode::Read => ErrorCause::IncompatibleReadType,
            LockMode::Write => ErrorCause::IncompatibleWriteType,
        },
        litert_status: LiteRtStatus_kLiteRtStatusErrorInvalidArgument,
    }
}

/// The cause of a lock call that failed.
pub open spec fn lock_cause(mode: LockMode) -> ErrorCause {
    match mode {
        LockMode::Read => ErrorCause::LockTensorBufferRead,
        LockMode::Write => ErrorCause::LockTensorBufferWrite,
    }
}

/// How much an access copies and what it reports, once the buffer's packed
/// size is known.
pub struct Transfer {
    /// Number of bytes to copy, from the start of both memories.
    pub bytes: usize,
    /// What the access returns: the bytes of the data for a write, the
    /// number of elements copied for a read.
    pub reported: usize,
}

/// The transfer of an access to a buffer of `packed_size` bytes with host
/// memory of `host_bytes` bytes, in elements of `element_bytes` bytes.
///
/// A write copies the whole elements of the data and reports the data's
/// size. It is refused where the buffer is smaller than the data. A read
/// copies the whole elements of the buffer (the smaller of the two sizes)
/// and reports their number. It is refused where the destination is smaller
/// than the buffer.
pub open spec fn transfer_of(
    mode: LockMode,
    host_bytes: usize,
    element_bytes: usize,
    packed_size: usize,
) -> Result<Transfer, Error>
    recommends
        element_bytes > 0,
{
    match mode {
        LockMode::Write => if packed_size < host_bytes {
            Err(too_small())
        } else {
            Ok(
                Transfer {
                    bytes: ((host_bytes / element_bytes) * element_bytes) as usize,
                    reported: host_bytes,
                },
            )
        },
        LockMode::Read => if host_bytes < packed_size {
            Err(too_small())
        } else {
            Ok(
                Transfer {
                    bytes: ((packed_size / element_bytes) * element_bytes) as usize,
                    reported: packed_size / element_bytes,
                },
            )
        },
    }
}

/// What the caller of an access is to do next.
#[derive(Debug, Clone, Copy, PartialEq, Eq)]
pub enum AccessStep {
    /// Lock the buffer in this mode, and report the status of the call.
    Lock(LockMode),
    /// Ask for the buffer's packed size, and report the answer.
    PackedSize,
    /// Copy this many bytes between the start of the locked memory and the
    /// start of the host memory, in the direction of the access, and report
    /// that it is done.
    Copy(usize),
    /// Unlock the buffer, and report that it is done.
    Unlock,
    /// Nothing: the access is over, with this result.
    Done(Result<usize, Error>),
}

/// What the caller of an access reports back.
#[derive(Debug, Clone, Copy, PartialEq, Eq)]
pub enum AccessEvent {
    /// The lock call returned this status.
    Locked(LiteRtStatus),
    /// The query for the packed size was answered.
    Sized(Reply<usize>),
    /// The copy was made.
    Copied,
    /// The unlock call was made.
    Unlocked,
}

/// The state of an access.
pub struct AccessView {
    /// The buffer that is accessed.
    pub buffer: LiteRtHandle,
    pub mode: LockMode,
    /// Size of the host memory in bytes.
    pub host_bytes: usize,
    /// Size of one host element in bytes.
    pub element_bytes: usize,
    /// What the caller is to do next.
    pub step: AccessStep,
    /// While the lock is held: the result that the access will have once
    /// the lock is released.
    pub pending: Result<usize, Error>,
    /// Number of lock calls that succeeded.
    pub locks: nat,
    /// Number of copies that were made.
    pub copies: nat,
    /// Number of unlock calls that were made.
    pub unlocks: nat,
}

impl AccessView {
    /// The state in which an access to a buffer of the given element type
    /// begins. With an incompatible host type it is over at once, and
    /// nothing is locked.
    pub open spec fn start(
        buffer: TensorBufferView,
        mode: LockMode,
        host: HostType,
        host_bytes: usize,
    ) -> AccessView {
        AccessView {
            buffer: buffer.raw_tensor_buffer,
            mode,
            host_bytes,
            element_bytes: host.width() as usize,
            step: if compatible(buffer.element_type, host) {
                AccessStep::Lock(mode)
            } else {
                AccessStep::Done(Err(incompatible(mode)))
            },
            pending: Err(incompatible(mode)),
            locks: 0,
            copies: 0,
            unlocks: 0,
        }
    }

    /// The state after the caller reported `event`. A report that does not
    /// answer the current step changes nothing.
    pub open spec fn advance(self, event: AccessEvent) -> AccessView {
        match (self.step, event) {
            (AccessStep::Lock(_), AccessEvent::Locked(status)) => {
                if status == LiteRtStatus_kLiteRtStatusOk {
                    AccessView { step: AccessStep::PackedSize, locks: self.locks + 1, ..self }
                } else {
                    AccessView {
                        step: AccessStep::Done(
                            Err(Error { cause: lock_cause(self.mode), litert_status: status }),
                        ),
                        ..self
                    }
                }
            },
            (AccessStep::PackedSize, AccessEvent::Sized(answer)) => {
                match answer.outcome(ErrorCause::GetTensorBufferPackedSize) {
                    Err(e) => AccessView { step: AccessStep::Unlock, pending: Err(e), ..self },
                    Ok(packed_size) => match transfer_of(
                        self.mode,
                        self.host_bytes,
                        self.element_bytes,
                        packed_size,
                    ) {
                        Err(e) => AccessView { step: AccessStep::Unlock, pending: Err(e), ..self },
                        Ok(transfer) => AccessView {
                            step: AccessStep::Copy(transfer.bytes),
                            pending: Ok(transfer.reported),
                            ..self
                        },
                    },
                }
            },
            (AccessStep::Copy(_), AccessEvent::Copied) => AccessView {
                step: AccessStep::Unlock,
                copies: self.copies + 1,
                ..self
            },
            (AccessStep::Unlock, AccessEvent::Unlocked) => AccessView {
                step: AccessStep::Done(self.pending),
                unlocks: self.unlocks + 1,
                ..self
            },
            _ => self,
        }
    }

    /// The state after the caller reported the events one after the other.
    pub open spec fn run(self, events: Seq<AccessEvent>) -> AccessView
        decreases events.len(),
    {
        if events.len() == 0 {
            self
        } else {
            self.advance(events.first()).run(events.drop_first())
        }
    }

    /// What holds of an access at every step: how the calls made so far
    /// belong to the step that it is at.
    pub open spec fn inv(self) -> bool {
        &&& self.element_bytes > 0
        &&& match self.step {
            AccessStep::Lock(mode) => {
                &&& mode == self.mode
                &&& self.locks == 0
                &&& self.copies == 0
                &&& self.unlocks == 0
            },
            AccessStep::PackedSize => self.locks == 1 && self.copies == 0 && self.unlocks == 0,
            AccessStep::Copy(bytes) => {
                &&& self.locks == 1
                &&& self.copies == 0
                &&& self.unlocks == 0
                &&& self.pending is Ok
                &&& bytes <= self.host_bytes
            },
            AccessStep::Unlock => {
                &&& self.locks == 1
                &&& self.unlocks == 0
                &&& self.copies == (if self.pending is Ok {
                    1nat
                } else {
                    0nat
                })
            },
            AccessStep::Done(result) => {
                &&& self.locks <= 1
                &&& self.unlocks == self.locks
                &&& self.copies == (if result is Ok {
                    1nat
                } else {
                    0nat
                })
            },
        }
    }
}

/// The events of an access in which every call succeeds and the buffer has
/// `packed_size` bytes.
pub open spec fn granted(packed_size: usize) -> Seq<AccessEvent> {
    seq![
        AccessEvent::Locked(LiteRtStatus_kLiteRtStatusOk),
        AccessEvent::Sized(Reply { status: LiteRtStatus_kLiteRtStatusOk, value: packed_size }),
        AccessEvent::Copied,
        AccessEvent::Unlocked,
    ]
}

/// The memory `dst` after the first `count` bytes of `src` were copied to
/// its start.
pub open spec fn copied(dst: Seq<u8>, src: Seq<u8>, count: int) -> Seq<u8>
    recommends
        0 <= count <= dst.len(),
        count <= src.len(),
{
    src.subrange(0, count) + dst.subrange(count, dst.len() as int)
}

/// An access to the memory of a tensor buffer, as a protocol between this
/// library and the code that calls the engine. The library decides each
/// step; the caller performs it and reports what came of it:
///
/// 1. lock the buffer;
/// 2. ask for the buffer's packed size;
/// 3. copy;
/// 4. unlock the buffer.
///
/// Whatever the lock, the query and the size check bring, a lock that was
/// taken is released before the access is over, and released once.
#[derive(Debug)]
pub struct TensorBufferAccess {
    buffer: LiteRtHandle,
    mode: LockMode,
    host_bytes: usize,
    element_bytes: usize,
    step: AccessStep,
    pending: Result<usize, Error>,
    locks: u8,
    copies: u8,
    unlocks: u8,
}

impl View for TensorBufferAccess {
    type V = AccessView;

    closed spec fn view(&self) -> AccessView {
        AccessView {
            buffer: self.buffer,
            mode: self.mode,
            host_bytes: self.host_bytes,
            element_bytes: self.element_bytes,
            step: self.step,
            pending: self.pending,
            locks: self.locks as nat,
            copies: self.copies as nat,
            unlocks: self.unlocks as nat,
        }
    }
}

/// The error of an access with an incompatible host type.
fn incompatible_error(mode: LockMode) -> (e: Error)
    ensures
        e == incompatible(mode),
{
    match mode {
        LockMode::Read => Error::new(
            ErrorCause::IncompatibleReadType,
            LiteRtStatus_kLiteRtStatusErrorInvalidArgument,
        ),
        LockMode::Write => Error::new(
            ErrorCause::IncompatibleWriteType,
            LiteRtStatus_kLiteRtStatusErrorInvalidArgument,
        ),
    }
}

/// Decides the transfer of an access once the packed size is known.
fn plan_transfer(mode: LockMode, host_bytes: usize, element_bytes: usize, packed_size: usize) -> (r:
    Result<Transfer, Error>)
    requires
        element_bytes > 0,
    ensures
        r == transfer_of(mode, host_bytes, element_bytes, packed_size),
        r is Ok ==> r->Ok_0.bytes <= host_bytes && r->Ok_0.bytes <= packed_size,
{
    proof {
        lemma_whole_elements(host_bytes, element_bytes);
        lemma_whole_elements(packed_size, element_bytes);
    }
    match mode {
        LockMode::Write => {
            let dst_size = packed_size;
            let src_size = host_bytes;
            if dst_size < src_size {
                return Err(
                    Error::new(
                        ErrorCause::TensorBufferTooSmall,
                        LiteRtStatus_kLiteRtStatusErrorRuntimeFailure,
                    ),
                );
            }
            Ok(Transfer { bytes: (src_size / element_bytes) * element_bytes, reported: src_size })
        },
        LockMode::Read => {
            let src_size = packed_size;
            let dst_size = host_bytes;
            if dst_size < src_size {
                return Err(
                    Error::new(
                        ErrorCause::TensorBufferTooSmall,
                        LiteRtStatus_kLiteRtStatusErrorRuntimeFailure,
                    ),
                );
            }
            let to_copy = (if src_size < dst_size {
                src_size
            } else {
                dst_size
            }) / element_bytes;
            Ok(Transfer { bytes: to_copy * element_bytes, reported: to_copy })
        },
    }
}

impl TensorBufferAccess {
    #[verifier::type_invariant]
    spec fn well_formed(&self) -> bool {
        self@.inv()
    }

    /// Begins an access to a buffer in the given mode, with host memory of
    /// `host_bytes` bytes that holds elements of the type `host`.
    pub(crate) fn begin(
        buffer: &TensorBuffer,
        mode: LockMode,
        host: HostType,
        host_bytes: usize,
    ) -> (access: TensorBufferAccess)
        ensures
            access@ == AccessView::start(buffer@, mode, host, host_bytes),
    {
        let step = if buffer.element_type().is_compatible(host) {
            AccessStep::Lock(mode)
        } else {
            AccessStep::Done(Err(incompatible_error(mode)))
        };
        TensorBufferAccess {
            buffer: buffer.raw_tensor_buffer(),
            mode,
            host_bytes,
            element_bytes: host.size_in_bytes(),
            step,
            pending: Err(incompatible_error(mode)),
            locks: 0,
            copies: 0,
            unlocks: 0,
        }
    }

    /// The address of the buffer that is accessed.
    pub fn buffer(&self) -> (raw: LiteRtHandle)
        ensures
            raw == self@.buffer,
    {
        self.buffer
    }

    /// What the caller is to do next.
    pub fn step(&self) -> (step: AccessStep)
        ensures
            step == self@.step,
            self@.inv(),
    {
        proof {
            use_type_invariant(self);
        }
        self.step
    }

    /// The result of the access, once it is over.
    pub fn result(&self) -> (r: Option<Result<usize, Error>>)
        ensures
            r == (match self@.step {
                AccessStep::Done(result) => Some(result),
                _ => None,
            }),
    {
        match self.step {
            AccessStep::Done(result) => Some(result),
            _ => None,
        }
    }

    /// Number of lock calls that succeeded so far.
    pub fn locks_taken(&self) -> (n: u8)
        ensures
            n == self@.locks,
    {
        self.locks
    }

    /// Number of copies that were made so far.
    pub fn copies_made(&self) -> (n: u8)
        ensures
            n == self@.copies,
    {
        self.copies
    }

    /// Number of unlock calls that were made so far.
    pub fn unlocks_issued(&self) -> (n: u8)
        ensures
            n == self@.unlocks,
    {
        self.unlocks
    }

    /// Takes the caller's report of the step that it performed, and decides
    /// the next step. A report that does not answer the current step changes
    /// nothing.
    pub fn advance(&mut self, event: AccessEvent)
        ensures
            final(self)@ == old(self)@.advance(event),
    {
        proof {
            use_type_invariant(&*self);
            AccessView::lemma_advance_keeps_inv(self@, event);
        }
        let buffer = self.buffer;
        let mode = self.mode;
        let host_bytes = self.host_bytes;
        let element_bytes = self.element_bytes;
        let pending = self.pending;
        let locks = self.locks;
        let copies = self.copies;
        let unlocks = self.unlocks;
        match (self.step, event) {
            (AccessStep::Lock(_), AccessEvent::Locked(status)) => {
                let locked = match mode {
                    LockMode::Read => TensorBuffer::lock_read(status),
                    LockMode::Write => TensorBuffer::lock_write(status),
                };
                match locked {
                    Ok(()) => {
                        *self = TensorBufferAccess {
                            buffer,
                            mode,
                            host_bytes,
                            element_bytes,
                            step: AccessStep::PackedSize,
                            pending,
                            locks: 1,
                            copies,
                            unlocks,
                        };
                    },
                    Err(e) => {
                        *self = TensorBufferAccess {
                            buffer,
                            mode,
                            host_bytes,
                            element_bytes,
                            step: AccessStep::Done(Err(e)),
                            pending,
                            locks,
                            copies,
                            unlocks,
                        };
                    },
                }
            },
            (AccessStep::PackedSize, AccessEvent::Sized(answer)) => {
                let transfer = match check_status(
                    answer.status,
                    ErrorCause::GetTensorBufferPackedSize,
                ) {
                    Ok(()) => plan_transfer(mode, host_bytes, element_bytes, answer.value),
                    Err(e) => Err(e),
                };
                match transfer {
                    Ok(transfer) => {
                        *self = TensorBufferAccess {
                            buffer,
                            mode,
                            host_bytes,
                            element_bytes,
                            step: AccessStep::Copy(transfer.bytes),
                            pending: Ok(transfer.reported),
                            locks,
                            copies,
                            unlocks,
                        };
                    },
                    Err(e) => {
                        *self = TensorBufferAccess {
                            buffer,
                            mode,
                            host_bytes,
                            element_bytes,
                            step: AccessStep::Unlock,
                            pending: Err(e),
                            locks,
                            copies,
                            unlocks,
                        };
                    },
                }
            },
            (AccessStep::Copy(_), AccessEvent::Copied) => {
                *self = TensorBufferAccess {
                    buffer,
                    mode,
                    host_bytes,
                    element_bytes,
                    step: AccessStep::Unlock,
                    pending,
                    locks,
                    copies: 1,
                    unlocks,
                };
            },
            (AccessStep::Unlock, AccessEvent::Unlocked) => {
                *self = TensorBufferAccess {
                    buffer,
                    mode,
                    host_bytes,
                    element_bytes,
                    step: AccessStep::Done(pending),
                    pending,
                    locks,
                    copies,
                    unlocks: 1,
                };
            },
            _ => {},
        }
    }
}

/// Copies the first `count` bytes of `src` to the start of `dst`, and leaves
/// the rest of `dst` as it is. This is the copy that the step
/// [`AccessStep::Copy`] asks for: from the host data to the locked memory in
/// a write, from the locked memory to the host memory in a read.
pub fn copy_bytes(dst: &mut [u8], src: &[u8], count: usize)
    requires
        count <= old(dst)@.len(),
        count <= src@.len(),
    ensures
        final(dst)@ == copied(old(dst)@, src@, count as int),
{
    let mut i: usize = 0;
    while i < count
        invariant
            0 <= i <= count,
            count <= src@.len(),
            dst@.len() == old(dst)@.len(),
            count <= dst@.len(),
            forall|k: int| 0 <= k < i ==> dst@[k] == src@[k],
            forall|k: int| i <= k < dst@.len() ==> dst@[k] == old(dst)@[k],
        decreases count - i,
    {
        dst[i] = src[i];
        i = i + 1;
    }
    assert(dst@ =~= copied(old(dst)@, src@, count as int));
}

/// `(a / b) * b` for a positive `b`: the largest multiple of `b` that is not
/// above `a`.
proof fn lemma_whole_elements(a: usize, b: usize)
    requires
        b > 0,
    ensures
        0 <= (a / b) * b <= a,
        a - (a / b) * b < b,
{
    vstd::arithmetic::div_mod::lemma_fundamental_div_mod(a as int, b as int);
    vstd::arithmetic::div_mod::lemma_mod_bound(a as int, b as int);
    assert((a / b) * b == b * (a / b)) by (nonlinear_arith);
    vstd::arithmetic::div_mod::lemma_div_pos_is_pos(a as int, b as int);
    assert(0 <= (a / b) * b) by (nonlinear_arith)
        requires
            0 <= (a / b),
            b > 0,
    ;
}

impl AccessView {
    /// An access begins in a state of which the invariant holds.
    pub proof fn lemma_start_has_inv(
        buffer: TensorBufferView,
        mode: LockMode,
        host: HostType,
        host_bytes: usize,
    )
        ensures
            Self::start(buffer, mode, host, host_bytes).inv(),
    {
    }

    /// No report takes an access out of the invariant.
    pub proof fn lemma_advance_keeps_inv(state: AccessView, event: AccessEvent)
        requires
            state.inv(),
        ensures
            state.advance(event).inv(),
    {
        if let (AccessStep::PackedSize, AccessEvent::Sized(answer)) = (state.step, event) {
            if let Ok(packed_size) = answer.outcome(ErrorCause::GetTensorBufferPackedSize) {
                lemma_whole_elements(state.host_bytes, state.element_bytes);
                lemma_whole_elements(packed_size, state.element_bytes);
            }
        }
    }

    /// No sequence of reports takes an access out of the invariant.
    pub proof fn lemma_run_keeps_inv(state: AccessView, events: Seq<AccessEvent>)
        requires
            state.inv(),
        ensures
            state.run(events).inv(),
        decreases events.len(),
    {
        if events.len() > 0 {
            Self::lemma_advance_keeps_inv(state, events.first());
            Self::lemma_run_keeps_inv(state.advance(events.first()), events.drop_first());
        }
    }

    /// An access that is over stays as it is, whatever is reported.
    pub proof fn lemma_done_is_final(state: AccessView, events: Seq<AccessEvent>)
        requires
            state.step is Done,
        ensures
            state.run(events) == state,
        decreases events.len(),
    {
        if events.len() > 0 {
            Self::lemma_done_is_final(state, events.drop_first());
        }
    }

    /// Whatever the caller reports of an access, and whichever way the
    /// access takes: the buffer is locked at most once, it is never unlocked
    /// without having been locked, and when the access is over each lock
    /// that was taken has been released by exactly one unlock call.
    pub proof fn lemma_each_lock_is_released_once(
        buffer: TensorBufferView,
        mode: LockMode,
        host: HostType,
        host_bytes: usize,
        events: Seq<AccessEvent>,
    )
        ensures
            ({
                let end = Self::start(buffer, mode, host, host_bytes).run(events);
                &&& end.locks <= 1
                &&& end.unlocks <= end.locks
                &&& end.step is Done ==> end.unlocks == end.locks
            }),
    {
        Self::lemma_start_has_inv(buffer, mode, host, host_bytes);
        Self::lemma_run_keeps_inv(Self::start(buffer, mode, host, host_bytes), events);
    }

    /// An access copies at most once, and one that is over has copied
    /// exactly if its result is a success.
    pub proof fn lemma_failure_copies_nothing(
        buffer: TensorBufferView,
        mode: LockMode,
        host: HostType,
        host_bytes: usize,
        events: Seq<AccessEvent>,
    )
        ensures
            ({
                let end = Self::start(buffer, mode, host, host_bytes).run(events);
                &&& end.copies <= 1
                &&& end.step matches AccessStep::Done(result) ==> (end.copies == 0 <==> result
                    is Err)
            }),
    {
        Self::lemma_start_has_inv(buffer, mode, host, host_bytes);
        Self::lemma_run_keeps_inv(Self::start(buffer, mode, host, host_bytes), events);
    }

    /// An access with a host type that is not compatible with the buffer's
    /// element type fails with the cause of its direction, whatever is
    /// reported; nothing is locked and nothing is copied.
    pub proof fn lemma_incompatible_type_is_refused(
        buffer: TensorBufferView,
        mode: LockMode,
        host: HostType,
        host_bytes: usize,
        events: Seq<AccessEvent>,
    )
        requires
            !compatible(buffer.element_type, host),
        ensures
            ({
                let end = Self::start(buffer, mode, host, host_bytes).run(events);
                &&& end.step == AccessStep::Done(Err(incompatible(mode)))
                &&& end.locks == 0
                &&& end.copies == 0
                &&& end.unlocks == 0
            }),
    {
        Self::lemma_done_is_final(Self::start(buffer, mode, host, host_bytes), events);
    }

    /// An access for which the lock was granted and the packed size shows
    /// too little room (a buffer smaller than the data of a write, a
    /// destination smaller than the buffer in a read) asks for the unlock
    /// next, and whatever is reported after that, it copies nothing and ends
    /// with the too-small error, after the one unlock.
    pub proof fn lemma_too_small_is_refused(
        buffer: TensorBufferView,
        mode: LockMode,
        host: HostType,
        host_bytes: usize,
        packed_size: usize,
        events: Seq<AccessEvent>,
    )
        requires
            compatible(buffer.element_type, host),
            match mode {
                LockMode::Write => packed_size < host_bytes,
                LockMode::Read => host_bytes < packed_size,
            },
        ensures
            ({
                let sized = Self::start(buffer, mode, host, host_bytes).advance(
                    AccessEvent::Locked(LiteRtStatus_kLiteRtStatusOk),
                ).advance(
                    AccessEvent::Sized(
                        Reply { status: LiteRtStatus_kLiteRtStatusOk, value: packed_size },
                    ),
                );
                let end = sized.run(events);
                &&& sized.step is Unlock
                &&& end.copies == 0
                &&& end.step is Done ==> end.step == AccessStep::Done(Err(too_small()))
                    && end.unlocks == 1
            }),
    {
        let begin = Self::start(buffer, mode, host, host_bytes);
        let locked = begin.advance(AccessEvent::Locked(LiteRtStatus_kLiteRtStatusOk));
        let sized = locked.advance(
            AccessEvent::Sized(Reply { status: LiteRtStatus_kLiteRtStatusOk, value: packed_size }),
        );
        Self::lemma_start_has_inv(buffer, mode, host, host_bytes);
        Self::lemma_advance_keeps_inv(begin, AccessEvent::Locked(LiteRtStatus_kLiteRtStatusOk));
        Self::lemma_advance_keeps_inv(
            locked,
            AccessEvent::Sized(Reply { status: LiteRtStatus_kLiteRtStatusOk, value: packed_size }),
        );
        Self::lemma_pending_error_is_the_result(sized, events);
    }

    /// Once an access waits for the unlock with an error pending, it copies
    /// nothing any more, and it can only end with that error.
    proof fn lemma_pending_error_is_the_result(state: AccessView, events: Seq<AccessEvent>)
        requires
            state.inv(),
            state.pending is Err,
            state.step is Unlock || state.step == AccessStep::Done(state.pending),
        ensures
            state.run(events).copies == 0,
            state.run(events).step is Done ==> state.run(events).step == AccessStep::Done(
                state.pending,
            ) && state.run(events).unlocks == state.locks,
        decreases events.len(),
    {
        if events.len() > 0 {
            Self::lemma_advance_keeps_inv(state, events.first());
            Self::lemma_pending_error_is_the_result(
                state.advance(events.first()),
                events.drop_first(),
            );
        }
    }

    /// An access with a compatible host type in which every call succeeds,
    /// and which finds room enough, asks for the four steps in order, copies
    /// what [`transfer_of`] says, and ends with what it says is reported.
    pub proof fn lemma_granted_access_succeeds(
        buffer: TensorBufferView,
        mode: LockMode,
        host: HostType,
        host_bytes: usize,
        packed_size: usize,
    )
        requires
            compatible(buffer.element_type, host),
            match mode {
                LockMode::Write => host_bytes <= packed_size,
                LockMode::Read => packed_size <= host_bytes,
            },
        ensures
            ({
                let begin = Self::start(buffer, mode, host, host_bytes);
                let transfer = transfer_of(mode, host_bytes, host.width() as usize, packed_size);
                &&& transfer is Ok
                &&& begin.step == AccessStep::Lock(mode)
                &&& begin.run(granted(packed_size).take(1)).step == AccessStep::PackedSize
                &&& begin.run(granted(packed_size).take(2)).step == AccessStep::Copy(
                    transfer->Ok_0.bytes,
                )
                &&& begin.run(granted(packed_size).take(3)).step == AccessStep::Unlock
                &&& begin.run(granted(packed_size)).step == AccessStep::Done(
                    Ok(transfer->Ok_0.reported),
                )
            }),
    {
        let events = granted(packed_size);
        let begin = Self::start(buffer, mode, host, host_bytes);
        let s1 = begin.advance(events[0]);
        let s2 = s1.advance(events[1]);
        let s3 = s2.advance(events[2]);
        let s4 = s3.advance(events[3]);
        reveal_with_fuel(AccessView::run, 5);
        assert(events.take(1) =~= seq![events[0]]);
        assert(events.take(2) =~= seq![events[0], events[1]]);
        assert(events.take(3) =~= seq![events[0], events[1], events[2]]);
        assert(events.take(1).drop_first() =~= Seq::<AccessEvent>::empty());
        assert(events.take(2).drop_first() =~= seq![events[1]]);
        assert(events.take(2).drop_first().drop_first() =~= Seq::<AccessEvent>::empty());
        assert(events.take(3).drop_first() =~= seq![events[1], events[2]]);
        assert(events.take(3).drop_first().drop_first() =~= seq![events[2]]);
        assert(events.take(3).drop_first().drop_first().drop_first() =~= Seq::<
            AccessEvent,
        >::empty());
        assert(events.drop_first() =~= seq![events[1], events[2], events[3]]);
        assert(events.drop_first().drop_first() =~= seq![events[2], events[3]]);
        assert(events.drop_first().drop_first().drop_first() =~= seq![events[3]]);
        assert(events.drop_first().drop_first().drop_first().drop_first() =~= Seq::<
            AccessEvent,
        >::empty());
        assert(begin.run(events.take(1)) == s1);
        assert(begin.run(events.take(2)) == s2);
        assert(begin.run(events.take(3)) == s3);
        assert(begin.run(events) == s4);
    }
}

/// A read into memory that is larger than the buffer copies the whole
/// elements of the buffer and reports their number; the bytes of the
/// destination behind them stay as they were.
pub proof fn lemma_read_into_larger_memory(
    host: HostType,
    region: Seq<u8>,
    destination: Seq<u8>,
)
    requires
        region.len() < destination.len() <= usize::MAX,
    ensures
        ({
            let width = host.width() as usize;
            let transfer = transfer_of(
                LockMode::Read,
                destination.len() as usize,
                width,
                region.len() as usize,
            );
            let after = copied(destination, region, transfer->Ok_0.bytes as int);
            &&& transfer is Ok
            &&& transfer->Ok_0.reported == region.len() / (width as nat)
            &&& transfer->Ok_0.bytes == transfer->Ok_0.reported * width
            &&& region.len() - transfer->Ok_0.bytes < width
            &&& after.len() == destination.len()
            &&& after.subrange(0, transfer->Ok_0.bytes as int) == region.subrange(
                0,
                transfer->Ok_0.bytes as int,
            )
            &&& after.subrange(transfer->Ok_0.bytes as int, after.len() as int)
                == destination.subrange(transfer->Ok_0.bytes as int, destination.len() as int)
        }),
{
    let width = host.width() as usize;
    lemma_whole_elements(region.len() as usize, width);
    let transfer = transfer_of(
        LockMode::Read,
        destination.len() as usize,
        width,
        region.len() as usize,
    );
    let bytes = transfer->Ok_0.bytes as int;
    let after = copied(destination, region, bytes);
    assert(after.subrange(0, bytes) =~= region.subrange(0, bytes));
    assert(after.subrange(bytes, after.len() as int) =~= destination.subrange(
        bytes,
        destination.len() as int,
    ));
}

/// Data written to a buffer and read back comes back byte for byte. For
/// every pair of the compatibility table: where the data is made of whole
/// elements and fits the buffer, the destination of the read has room for
/// the buffer, and every engine call succeeds, both accesses succeed, and
/// after the two copies that they ask for the destination begins with the
/// data. Where all three have one size, the destination is the data.
pub proof fn lemma_write_then_read_round_trips(
    buffer: TensorBufferView,
    host: HostType,
    data: Seq<u8>,
    region: Seq<u8>,
    destination: Seq<u8>,
)
    requires
        compatible(buffer.element_type, host),
        data.len() % host.width() == 0,
        data.len() <= region.len() <= destination.len() <= usize::MAX,
    ensures
        ({
            let width = host.width() as usize;
            let packed_size = region.len() as usize;
            let write = transfer_of(LockMode::Write, data.len() as usize, width, packed_size);
            let written = copied(region, data, write->Ok_0.bytes as int);
            let read = transfer_of(LockMode::Read, destination.len() as usize, width, packed_size);
            let after = copied(destination, written, read->Ok_0.bytes as int);
            let writing = AccessView::start(buffer, LockMode::Write, host, data.len() as usize);
            let reading = AccessView::start(
                buffer,
                LockMode::Read,
                host,
                destination.len() as usize,
            );
            &&& write is Ok
            &&& read is Ok
            &&& writing.run(granted(packed_size).take(2)).step == AccessStep::Copy(
                write->Ok_0.bytes,
            )
            &&& writing.run(granted(packed_size)).step == AccessStep::Done(Ok(data.len() as usize))
            &&& reading.run(granted(packed_size).take(2)).step == AccessStep::Copy(
                read->Ok_0.bytes,
            )
            &&& reading.run(granted(packed_size)).step == AccessStep::Done(
                Ok(packed_size / width),
            )
            &&& written.len() == region.len()
            &&& after.len() == destination.len()
            &&& after.subrange(0, data.len() as int) == data
            &&& data.len() == destination.len() ==> after == data
        }),
{
    let width = host.width() as usize;
    let n = data.len() as usize;
    let p = region.len() as usize;
    AccessView::lemma_granted_access_succeeds(buffer, LockMode::Write, host, n, p);
    AccessView::lemma_granted_access_succeeds(
        buffer,
        LockMode::Read,
        host,
        destination.len() as usize,
        p,
    );
    lemma_whole_elements(n, width);
    lemma_whole_elements(p, width);
    vstd::arithmetic::div_mod::lemma_fundamental_div_mod(n as int, width as int);
    assert((n / width) * width == n) by (nonlinear_arith)
        requires
            n as int == (width as int) * (n as int / width as int) + (n as int % width as int),
            n as int % width as int == 0,
    ;
    assert((p / width) * width >= n) by {
        vstd::arithmetic::div_mod::lemma_div_is_ordered(n as int, p as int, width as int);
        vstd::arithmetic::mul::lemma_mul_inequality(
            n as int / width as int,
            p as int / width as int,
            width as int,
        );
    }
    let write = transfer_of(LockMode::Write, n, width, p);
    let written = copied(region, data, write->Ok_0.bytes as int);
    assert(written.len() == region.len());
    let read = transfer_of(LockMode::Read, destination.len() as usize, width, p);
    let after = copied(destination, written, read->Ok_0.bytes as int);
    assert(after.subrange(0, data.len() as int) =~= data);
    if data.len() == destination.len() {
        assert(after =~= data);
    }
}

} // verus!
