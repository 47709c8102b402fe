//! The compiled model is the result of compiling a model with specific
//! options. It says what buffers its inputs and outputs need, and it runs
//! inference on buffers that were made to that description.

use crate::bindings::{
    LiteRtHandle, LiteRtHwAccelerators, LiteRtHwAccelerators_kLiteRtHwAcceleratorCpu,
    LiteRtHwAccelerators_kLiteRtHwAcceleratorGpu, LiteRtHwAccelerators_kLiteRtHwAcceleratorNone,
    LiteRtHwAccelerators_kLiteRtHwAcceleratorNpu, LiteRtParamIndex, LiteRtStatus,
    LiteRtStatus_kLiteRtStatusErrorInvalidArgument, Reply,
};
use crate::environment::Environment;
use crate::error::{check_status, status_outcome, Error, ErrorCause};
use crate::model::{InputOutputNamesIterator, InputOutputNamesIteratorKind, Model, Signature, Subgraph, Tensor};
use crate::tensor_buffer::{
    ElementType, ManagedBufferRequest, TensorBuffer, TensorBufferRequirements, TensorBufferView,
};
use vstd::prelude::*;

verus! {

/// Hardware accelerators that can be used for inference.
#[derive(Debug, Clone, Copy, PartialEq, Eq, Structural)]
pub enum LiteRtHwAccelerator {
    NoAccelerator,
    Cpu,
    Gpu,
    Npu,
}

impl LiteRtHwAccelerator {
    /// The engine's number for this accelerator.
    pub open spec fn c_value(self) -> LiteRtHwAccelerators {
        match self {
            Self::NoAccelerator => LiteRtHwAccelerators_kLiteRtHwAcceleratorNone,
            Self::Cpu => LiteRtHwAccelerators_kLiteRtHwAcceleratorCpu,
            Self::Gpu => LiteRtHwAccelerators_kLiteRtHwAcceleratorGpu,
            Self::Npu => LiteRtHwAccelerators_kLiteRtHwAcceleratorNpu,
        }
    }

    pub fn to_c_enum(&self) -> (value: LiteRtHwAccelerators)
        ensures
            value == self.c_value(),
    {
        match self {
            Self::NoAccelerator => LiteRtHwAccelerators_kLiteRtHwAcceleratorNone,
            Self::Cpu => LiteRtHwAccelerators_kLiteRtHwAcceleratorCpu,
            Self::Gpu => LiteRtHwAccelerators_kLiteRtHwAcceleratorGpu,
            Self::Npu => LiteRtHwAccelerators_kLiteRtHwAcceleratorNpu,
        }
    }
}

/// What a set of options is: the engine's object, and the accelerator that
/// was chosen when it was made, if one was.
pub struct CompilationOptionsView {
    pub raw_options: LiteRtHandle,
    pub accelerator: Option<LiteRtHwAccelerator>,
}

/// Options for compiling a model. They are fixed when they are made.
#[derive(Debug)]
pub struct Options {
    raw_options: LiteRtHandle,
    accelerator: Option<LiteRtHwAccelerator>,
}

impl View for Options {
    type V = CompilationOptionsView;

    closed spec fn view(&self) -> CompilationOptionsView {
        CompilationOptionsView { raw_options: self.raw_options, accelerator: self.accelerator }
    }
}

impl Options {
    /// Makes the set of options with default values. `created` is the
    /// engine's answer to the creation call.
    pub fn default(created: Reply<LiteRtHandle>) -> (r: Result<Self, Error>)
        ensures
            r is Ok <==> created.is_ok(),
            r is Ok ==> r->Ok_0@ == (CompilationOptionsView {
                raw_options: created.value,
                accelerator: None,
            }),
            r is Err ==> r->Err_0 == (Error {
                cause: ErrorCause::CreateOptions,
                litert_status: created.status,
            }),
    {
        match check_status(created.status, ErrorCause::CreateOptions) {
            Ok(()) => {},
            Err(e) => {
                return Err(e);
            },
        }
        Ok(Self { raw_options: created.value, accelerator: None })
    }

    /// Makes the set of options with the specified hardware accelerator.
    /// `created` is the engine's answer to the creation call, and
    /// `configured` the status of the call that set the accelerator on the
    /// new object. Where the creation failed, that second call was not made,
    /// and `configured` is not looked at.
    pub fn create_with_accelerator(
        accelerator: LiteRtHwAccelerator,
        created: Reply<LiteRtHandle>,
        configured: LiteRtStatus,
    ) -> (r: Result<Self, Error>)
        ensures
            !created.is_ok() ==> r is Err && r->Err_0 == (Error {
                cause: ErrorCause::CreateOptions,
                litert_status: created.status,
            }),
            created.is_ok() ==> match status_outcome(
                configured,
                ErrorCause::SetOptionsHardwareAccelerators,
            ) {
                Ok(()) => r is Ok && r->Ok_0@ == (CompilationOptionsView {
                    raw_options: created.value,
                    accelerator: Some(accelerator),
                }),
                Err(e) => r is Err && r->Err_0 == e,
            },
    {
        let options = match Self::default(created) {
            Ok(options) => options,
            Err(e) => {
                return Err(e);
            },
        };
        match check_status(configured, ErrorCause::SetOptionsHardwareAccelerators) {
            Ok(()) => {},
            Err(e) => {
                return Err(e);
            },
        }
        Ok(Self { raw_options: options.raw_options, accelerator: Some(accelerator) })
    }

    /// The address of the engine's options.
    pub fn raw_options(&self) -> (raw: LiteRtHandle)
        ensures
            raw == self@.raw_options,
    {
        self.raw_options
    }

    /// The accelerator that was chosen when the options were made.
    pub fn accelerator(&self) -> (accelerator: Option<LiteRtHwAccelerator>)
        ensures
            accelerator == self@.accelerator,
    {
        self.accelerator
    }
}

/// The buffer that one input or output is to get: the arguments of the
/// allocation, and the element type that the buffer will hold.
#[derive(Debug, Clone, Copy, PartialEq, Eq)]
pub struct BufferPlan {
    pub request: ManagedBufferRequest,
    pub element_type: ElementType,
}

/// The error for requirements that name no kind of storage at all.
pub open spec fn no_supported_type() -> Error {
    Error {
        cause: ErrorCause::InputDoesntSupportAnyTensorBufferTypes,
        litert_status: LiteRtStatus_kLiteRtStatusErrorInvalidArgument,
    }
}

/// The plan for the buffer of a tensor under given requirements. Of the
/// kinds of storage that the requirements name, the first is taken: the
/// simplest choice, which need not be the fastest. The size is the one that
/// the requirements ask for, and the element type is the tensor's.
pub open spec fn plan_of(
    environment: LiteRtHandle,
    requirements: TensorBufferRequirements,
    tensor: Tensor,
) -> Result<BufferPlan, Error> {
    match requirements.supported_types_outcome() {
        Err(e) => Err(e),
        Ok(supported_types) => if supported_types.len() == 0 {
            Err(no_supported_type())
        } else {
            match tensor.ranked_tensor_type.outcome(ErrorCause::GetRankedTensorType) {
                Err(e) => Err(e),
                Ok(tensor_type) => match tensor.element_type_outcome() {
                    Err(e) => Err(e),
                    Ok(element_type) => match requirements.buffer_size.outcome(
                        ErrorCause::GetTensorBufferRequirementsBufferSize,
                    ) {
                        Err(e) => Err(e),
                        Ok(buffer_size) => Ok(
                            BufferPlan {
                                request: ManagedBufferRequest {
                                    environment,
                                    buffer_type: supported_types[0].c_value(),
                                    tensor_type,
                                    buffer_size,
                                },
                                element_type,
                            },
                        ),
                    },
                },
            }
        },
    }
}

/// The cause of a failed call for the requirements in one direction.
pub open spec fn requirements_cause(kind: InputOutputNamesIteratorKind) -> ErrorCause {
    match kind {
        InputOutputNamesIteratorKind::Input => ErrorCause::GetCompiledModelInputBufferRequirements,
        InputOutputNamesIteratorKind::Output => {
            ErrorCause::GetCompiledModelOutputBufferRequirements
        },
    }
}

/// The tensor of a subgraph that has the given name among the inputs, or
/// among the outputs.
pub open spec fn tensor_named(
    subgraph: Subgraph,
    kind: InputOutputNamesIteratorKind,
    name: Seq<char>,
) -> Result<Tensor, Error> {
    match kind {
        InputOutputNamesIteratorKind::Input => subgraph.input_by_name(name),
        InputOutputNamesIteratorKind::Output => subgraph.output_by_name(name),
    }
}

/// The plan for the buffer at one position of a signature, from the
/// engine's answer to the call for its requirements. The answer is checked
/// first; then the name at that position is looked up among the subgraph's
/// tensors, and the plan is made for the tensor found.
pub open spec fn plan_at(
    environment: LiteRtHandle,
    signature: Signature,
    subgraph: Subgraph,
    kind: InputOutputNamesIteratorKind,
    position: int,
    answer: Reply<TensorBufferRequirements>,
) -> Result<BufferPlan, Error> {
    match answer.outcome(requirements_cause(kind)) {
        Err(e) => Err(e),
        Ok(requirements) => match signature.name_at(kind, position) {
            Err(e) => Err(e),
            Ok(name) => match tensor_named(subgraph, kind, name) {
                Err(e) => Err(e),
                Ok(tensor) => plan_of(environment, requirements, tensor),
            },
        },
    }
}

/// What the caller of a buffer creation is to do next.
#[derive(Debug, Clone, Copy, PartialEq, Eq)]
pub enum CreationStep {
    /// Ask the compiled model for the requirements of the buffer at this
    /// position of this signature, and report the answer.
    Requirements { signature_index: LiteRtParamIndex, position: LiteRtParamIndex },
    /// Allocate a managed buffer with these arguments, and report the
    /// answer.
    Allocate(ManagedBufferRequest),
    /// Nothing: the creation is over. After a failure the buffers that were
    /// allocated before it are of no use.
    Done(Result<(), Error>),
}

/// What the caller of a buffer creation reports back.
#[derive(Debug, Clone, PartialEq, Eq)]
pub enum CreationEvent {
    /// The call for the requirements was answered.
    Requirements(Reply<TensorBufferRequirements>),
    /// The allocation call was answered.
    Allocated(Reply<LiteRtHandle>),
}

/// The state of a buffer creation.
pub struct CreationView {
    pub environment: LiteRtHandle,
    pub compiled_model: LiteRtHandle,
    pub signature_index: LiteRtParamIndex,
    /// Whether the buffers are for the inputs or for the outputs.
    pub kind: InputOutputNamesIteratorKind,
    pub signature: Signature,
    pub subgraph: Subgraph,
    /// Number of buffers to make: the number of names that the signature
    /// declares in this direction.
    pub total: nat,
    /// What the caller is to do next.
    pub step: CreationStep,
    /// The element type of the buffer that was planned last.
    pub element_type: ElementType,
    /// The buffers made so far, in the order of the positions.
    pub buffers: Seq<TensorBufferView>,
}

impl CreationView {
    /// The step that follows when `made` buffers are there: the
    /// requirements of the next position, or the end.
    pub open spec fn step_after(self, made: nat) -> CreationStep {
        if made < self.total {
            CreationStep::Requirements {
                signature_index: self.signature_index,
                position: made as usize,
            }
        } else {
            CreationStep::Done(Ok(()))
        }
    }

    /// The plan for the buffer at the next position, from the engine's
    /// answer to the call for its requirements.
    pub open spec fn next_plan(self, answer: Reply<TensorBufferRequirements>) -> Result<
        BufferPlan,
        Error,
    > {
        plan_at(
            self.environment,
            self.signature,
            self.subgraph,
            self.kind,
            self.buffers.len() as int,
            answer,
        )
    }

    /// The state after the caller reported `event`. A report that does not
    /// answer the current step changes nothing. The first failure ends the
    /// creation, with its error.
    pub open spec fn advance(self, event: CreationEvent) -> CreationView {
        match (self.step, event) {
            (CreationStep::Requirements { .. }, CreationEvent::Requirements(answer)) => {
                match self.next_plan(answer) {
                    Err(e) => CreationView { step: CreationStep::Done(Err(e)), ..self },
                    Ok(plan) => CreationView {
                        step: CreationStep::Allocate(plan.request),
                        element_type: plan.element_type,
                        ..self
                    },
                }
            },
            (CreationStep::Allocate(_), CreationEvent::Allocated(created)) => {
                match created.outcome(ErrorCause::CreateManagedTensorBuffer) {
                    Err(e) => CreationView { step: CreationStep::Done(Err(e)), ..self },
                    Ok(raw_tensor_buffer) => CreationView {
                        step: self.step_after(self.buffers.len() + 1),
                        buffers: self.buffers.push(
                            TensorBufferView { raw_tensor_buffer, element_type: self.element_type },
                        ),
                        ..self
                    },
                }
            },
            _ => self,
        }
    }

    /// The state after the caller reported the events one after the other.
    pub open spec fn run(self, events: Seq<CreationEvent>) -> CreationView
        decreases events.len(),
    {
        if events.len() == 0 {
            self
        } else {
            self.advance(events.first()).run(events.drop_first())
        }
    }

    /// The element type of the tensor whose name stands at `position` in
    /// the signature.
    pub open spec fn element_type_at(self, position: int) -> Result<ElementType, Error> {
        match self.signature.name_at(self.kind, position) {
            Err(e) => Err(e),
            Ok(name) => match tensor_named(self.subgraph, self.kind, name) {
                Err(e) => Err(e),
                Ok(tensor) => tensor.element_type_outcome(),
            },
        }
    }

    /// What holds of a creation at every step: there are never more buffers
    /// than names, the next position is the number of buffers, each buffer
    /// has the element type of the tensor named at its position, and a
    /// creation that ended well has made a buffer for every name.
    pub open spec fn inv(self) -> bool {
        &&& self.buffers.len() <= self.total <= usize::MAX
        &&& forall|i: int|
            0 <= i < self.buffers.len() ==> self.element_type_at(i) == Ok::<ElementType, Error>(
                (#[trigger] self.buffers[i]).element_type,
            )
        &&& match self.step {
            CreationStep::Requirements { signature_index, position } => {
                &&& signature_index == self.signature_index
                &&& position == self.buffers.len()
                &&& position < self.total
            },
            CreationStep::Allocate(_) => {
                &&& self.buffers.len() < self.total
                &&& self.element_type_at(self.buffers.len() as int) == Ok::<ElementType, Error>(
                    self.element_type,
                )
            },
            CreationStep::Done(Ok(())) => self.buffers.len() == self.total,
            CreationStep::Done(Err(_)) => true,
        }
    }

    /// A creation begins in a state of which the invariant holds.
    pub proof fn lemma_begin_has_inv(
        compiled_model: LiteRtHandle,
        environment: LiteRtHandle,
        model: Model,
        signature_index: LiteRtParamIndex,
        kind: InputOutputNamesIteratorKind,
    )
        ensures
            Self::begin(compiled_model, environment, model, signature_index, kind) matches Ok(
                state,
            ) ==> state.inv(),
    {
    }

    /// No report takes a creation out of the invariant.
    pub proof fn lemma_advance_keeps_inv(state: CreationView, event: CreationEvent)
        requires
            state.inv(),
        ensures
            state.advance(event).inv(),
    {
        let next = state.advance(event);
        let made = state.buffers.len() as int;
        assert forall|i: int| 0 <= i < next.buffers.len() implies next.element_type_at(i) == Ok::<
            ElementType,
            Error,
        >((#[trigger] next.buffers[i]).element_type) by {
            assert(next.element_type_at(i) == state.element_type_at(i));
            if i < made {
                assert(next.buffers[i] == state.buffers[i]);
            }
        }
        match (state.step, event) {
            (CreationStep::Requirements { .. }, CreationEvent::Requirements(answer)) => {
                if let Ok(plan) = state.next_plan(answer) {
                    assert(next.element_type_at(made) == state.element_type_at(made));
                    assert(state.element_type_at(made) == Ok::<ElementType, Error>(
                        plan.element_type,
                    ));
                }
            },
            _ => {},
        }
    }

    /// No sequence of reports takes a creation out of the invariant, or
    /// changes the number of buffers that it is to make.
    pub proof fn lemma_run_keeps_inv(state: CreationView, events: Seq<CreationEvent>)
        requires
            state.inv(),
        ensures
            state.run(events).inv(),
            state.run(events).total == state.total,
            state.run(events).signature == state.signature,
            state.run(events).subgraph == state.subgraph,
            state.run(events).kind == state.kind,
        decreases events.len(),
    {
        if events.len() > 0 {
            Self::lemma_advance_keeps_inv(state, events.first());
            Self::lemma_advance_keeps_total(state, events.first());
            Self::lemma_run_keeps_inv(state.advance(events.first()), events.drop_first());
        }
    }

    /// Whatever the caller reports of the creation of the buffers of a
    /// signature: when it ends well, there is exactly one buffer for each
    /// name that the signature declares in that direction, in the order of
    /// the names, and each buffer has the element type of the tensor of its
    /// name.
    pub proof fn lemma_one_buffer_for_each_name(
        compiled_model: LiteRtHandle,
        environment: LiteRtHandle,
        model: Model,
        signature_index: LiteRtParamIndex,
        kind: InputOutputNamesIteratorKind,
        events: Seq<CreationEvent>,
    )
        ensures
            Self::begin(compiled_model, environment, model, signature_index, kind) matches Ok(
                state,
            ) ==> {
                let end = state.run(events);
                let declared = match kind {
                    InputOutputNamesIteratorKind::Input => state.signature.num_inputs.value,
                    InputOutputNamesIteratorKind::Output => state.signature.num_outputs.value,
                };
                &&& end.buffers.len() <= declared
                &&& end.step == CreationStep::Done(Ok(())) ==> end.buffers.len() == declared
                &&& forall|i: int|
                    0 <= i < end.buffers.len() ==> state.element_type_at(i) == Ok::<
                        ElementType,
                        Error,
                    >((#[trigger] end.buffers[i]).element_type)
            },
    {
        if let Ok(state) = Self::begin(
            compiled_model,
            environment,
            model,
            signature_index,
            kind,
        ) {
            Self::lemma_begin_has_inv(compiled_model, environment, model, signature_index, kind);
            Self::lemma_run_keeps_inv(state, events);
            let end = state.run(events);
            assert forall|i: int| 0 <= i < end.buffers.len() implies state.element_type_at(i)
                == Ok::<ElementType, Error>((#[trigger] end.buffers[i]).element_type) by {
                assert(end.element_type_at(i) == state.element_type_at(i));
            }
        }
    }

    /// No report changes what a creation is about.
    pub proof fn lemma_advance_keeps_total(state: CreationView, event: CreationEvent)
        ensures
            state.advance(event).total == state.total,
            state.advance(event).signature == state.signature,
            state.advance(event).subgraph == state.subgraph,
            state.advance(event).kind == state.kind,
            state.advance(event).environment == state.environment,
            state.advance(event).compiled_model == state.compiled_model,
            state.advance(event).signature_index == state.signature_index,
    {
    }

    /// The state in which the creation of the buffers of one direction of a
    /// signature begins, or the error of the first of these that fails: the
    /// fetch of the signature, of its subgraph, of the number of names.
    pub open spec fn begin(
        compiled_model: LiteRtHandle,
        environment: LiteRtHandle,
        model: Model,
        signature_index: LiteRtParamIndex,
        kind: InputOutputNamesIteratorKind,
    ) -> Result<CreationView, Error> {
        match model.signatures.reply_at(signature_index as int).outcome(
            ErrorCause::GetModelSignature,
        ) {
            Err(e) => Err(e),
            Ok(signature) => match signature.subgraph.outcome(ErrorCause::GetSignatureSubgraph) {
                Err(e) => Err(e),
                Ok(subgraph) => match (match kind {
                    InputOutputNamesIteratorKind::Input => signature.num_inputs.outcome(
                        ErrorCause::GetNumSignatureInputs,
                    ),
                    InputOutputNamesIteratorKind::Output => signature.num_outputs.outcome(
                        ErrorCause::GetNumSignatureOutputs,
                    ),
                }) {
                    Err(e) => Err(e),
                    Ok(total) => {
                        let fresh = CreationView {
                            environment,
                            compiled_model,
                            signature_index,
                            kind,
                            signature,
                            subgraph,
                            total: total as nat,
                            step: CreationStep::Done(Ok(())),
                            element_type: ElementType::NoType,
                            buffers: Seq::empty(),
                        };
                        Ok(CreationView { step: fresh.step_after(0), ..fresh })
                    },
                },
            },
        }
    }
}

/// The views of the buffers of a vector, in order.
pub open spec fn buffer_views(buffers: Seq<TensorBuffer>) -> Seq<TensorBufferView> {
    Seq::new(buffers.len(), |i: int| buffers[i]@)
}

/// The engine's addresses of the buffers of a vector, in order.
pub open spec fn buffer_handles(buffers: Seq<TensorBuffer>) -> Seq<LiteRtHandle> {
    Seq::new(buffers.len(), |i: int| buffers[i]@.raw_tensor_buffer)
}

/// The creation of the buffers for the inputs, or for the outputs, of one
/// signature, as a protocol between this library and the code that calls
/// the engine. For each position in order, the library asks for the
/// requirements, plans the buffer from them, and asks for the allocation.
pub struct BufferCreation<'a> {
    environment: LiteRtHandle,
    compiled_model: LiteRtHandle,
    signature_index: LiteRtParamIndex,
    subgraph: &'a Subgraph,
    names: InputOutputNamesIterator<'a>,
    step: CreationStep,
    element_type: ElementType,
    buffers: Vec<TensorBuffer>,
}

impl<'a> View for BufferCreation<'a> {
    type V = CreationView;

    closed spec fn view(&self) -> CreationView {
        CreationView {
            environment: self.environment,
            compiled_model: self.compiled_model,
            signature_index: self.signature_index,
            kind: self.names.kind(),
            signature: self.names.signature(),
            subgraph: *self.subgraph,
            total: self.names.total(),
            step: self.step,
            element_type: self.element_type,
            buffers: buffer_views(self.buffers@),
        }
    }
}

/// A compiled model that can be used to run inference.
#[derive(Debug)]
pub struct CompiledModel {
    raw_compiled_model: LiteRtHandle,
}

/// The arguments of the engine call that runs inference.
#[derive(Debug)]
pub struct RunCall {
    pub compiled_model: LiteRtHandle,
    pub signature_index: LiteRtParamIndex,
    /// The addresses of the input buffers, in order.
    pub inputs: Vec<LiteRtHandle>,
    /// The addresses of the output buffers, in order.
    pub outputs: Vec<LiteRtHandle>,
}

impl RunCall {
    /// What the status of the run call means. Nothing is tried again: a
    /// failure of the engine is the failure of the run, and says nothing
    /// about what the output buffers hold.
    pub fn finish(&self, status: LiteRtStatus) -> (r: Result<(), Error>)
        ensures
            r == status_outcome(status, ErrorCause::RunCompiledModel),
    {
        check_status(status, ErrorCause::RunCompiledModel)
    }
}

/// Collects the engine's addresses of the buffers, in order.
fn raw_buffers(buffers: &Vec<TensorBuffer>) -> (handles: Vec<LiteRtHandle>)
    ensures
        handles@ == buffer_handles(buffers@),
{
    let mut handles: Vec<LiteRtHandle> = Vec::new();
    let mut i: usize = 0;
    while i < buffers.len()
        invariant
            0 <= i <= buffers@.len(),
            handles@.len() == i,
            forall|k: int| 0 <= k < i ==> handles@[k] == buffers@[k]@.raw_tensor_buffer,
        decreases buffers@.len() - i,
    {
        handles.push(buffers[i].raw_tensor_buffer());
        i = i + 1;
    }
    assert(handles@ =~= buffer_handles(buffers@));
    handles
}

impl CompiledModel {
    /// The address of the engine's compiled model.
    pub closed spec fn raw(&self) -> LiteRtHandle {
        self.raw_compiled_model
    }

    /// Makes the compiled model of a model for an environment, under given
    /// options. `created` is the engine's answer to the compilation call for
    /// these three.
    pub fn create(
        environment: &Environment,
        model: &Model,
        options: &Options,
        created: Reply<LiteRtHandle>,
    ) -> (r: Result<Self, Error>)
        ensures
            r is Ok <==> created.is_ok(),
            r is Ok ==> r->Ok_0.raw() == created.value,
            r is Err ==> r->Err_0 == (Error {
                cause: ErrorCause::CreateCompiledModel,
                litert_status: created.status,
            }),
    {
        match check_status(created.status, ErrorCause::CreateCompiledModel) {
            Ok(()) => {},
            Err(e) => {
                return Err(e);
            },
        }
        Ok(CompiledModel { raw_compiled_model: created.value })
    }

    /// The address of the engine's compiled model.
    pub fn raw_compiled_model(&self) -> (raw: LiteRtHandle)
        ensures
            raw == self.raw(),
    {
        self.raw_compiled_model
    }

    /// What the answer to the call for the requirements of an input means.
    fn input_buffer_requirements(answer: &Reply<TensorBufferRequirements>) -> (r: Result<
        &TensorBufferRequirements,
        Error,
    >)
        ensures
            match r {
                Ok(requirements) => answer.outcome(
                    ErrorCause::GetCompiledModelInputBufferRequirements,
                ) == Ok::<TensorBufferRequirements, Error>(*requirements),
                Err(e) => answer.outcome(ErrorCause::GetCompiledModelInputBufferRequirements)
                    == Err::<TensorBufferRequirements, Error>(e),
            },
    {
        answer.check(ErrorCause::GetCompiledModelInputBufferRequirements)
    }

    /// What the answer to the call for the requirements of an output means.
    fn output_buffer_requirements(answer: &Reply<TensorBufferRequirements>) -> (r: Result<
        &TensorBufferRequirements,
        Error,
    >)
        ensures
            match r {
                Ok(requirements) => answer.outcome(
                    ErrorCause::GetCompiledModelOutputBufferRequirements,
                ) == Ok::<TensorBufferRequirements, Error>(*requirements),
                Err(e) => answer.outcome(ErrorCause::GetCompiledModelOutputBufferRequirements)
                    == Err::<TensorBufferRequirements, Error>(e),
            },
    {
        answer.check(ErrorCause::GetCompiledModelOutputBufferRequirements)
    }

    /// Begins the creation of the buffers for one direction of a signature.
    fn create_tensor_buffers<'a>(
        &self,
        environment: &Environment,
        model: &'a Model,
        signature_index: LiteRtParamIndex,
        kind: InputOutputNamesIteratorKind,
    ) -> (r: Result<BufferCreation<'a>, Error>)
        ensures
            match r {
                Ok(creation) => CreationView::begin(
                    self.raw(),
                    environment.raw(),
                    *model,
                    signature_index,
                    kind,
                ) == Ok::<CreationView, Error>(creation@),
                Err(e) => CreationView::begin(
                    self.raw(),
                    environment.raw(),
                    *model,
                    signature_index,
                    kind,
                ) == Err::<CreationView, Error>(e),
            },
    {
        let signature = match model.signature(signature_index) {
            Ok(signature) => signature,
            Err(e) => {
                return Err(e);
            },
        };
        let subgraph = match signature.subgraph() {
            Ok(subgraph) => subgraph,
            Err(e) => {
                return Err(e);
            },
        };
        let names = match kind {
            InputOutputNamesIteratorKind::Input => signature.input_names(),
            InputOutputNamesIteratorKind::Output => signature.output_names(),
        };
        let names = match names {
            Ok(names) => names,
            Err(e) => {
                return Err(e);
            },
        };
        let step = if names.size_hint().0 > 0 {
            CreationStep::Requirements { signature_index, position: 0 }
        } else {
            CreationStep::Done(Ok(()))
        };
        let creation = BufferCreation {
            environment: environment.raw_environment(),
            compiled_model: self.raw_compiled_model,
            signature_index,
            subgraph,
            names,
            step,
            element_type: ElementType::NoType,
            buffers: Vec::new(),
        };
        assert(creation@.buffers =~= Seq::empty());
        Ok(creation)
    }

    /// Begins to create the set of input tensor buffers for the specified
    /// signature.
    pub fn create_input_tensor_buffers<'a>(
        &self,
        environment: &Environment,
        model: &'a Model,
        signature_index: LiteRtParamIndex,
    ) -> (r: Result<BufferCreation<'a>, Error>)
        ensures
            match r {
                Ok(creation) => CreationView::begin(
                    self.raw(),
                    environment.raw(),
                    *model,
                    signature_index,
                    InputOutputNamesIteratorKind::Input,
                ) == Ok::<CreationView, Error>(creation@),
                Err(e) => CreationView::begin(
                    self.raw(),
                    environment.raw(),
                    *model,
                    signature_index,
                    InputOutputNamesIteratorKind::Input,
                ) == Err::<CreationView, Error>(e),
            },
    {
        self.create_tensor_buffers(
            environment,
            model,
            signature_index,
            InputOutputNamesIteratorKind::Input,
        )
    }

    /// Begins to create the set of output tensor buffers for the specified
    /// signature.
    pub fn create_output_tensor_buffers<'a>(
        &self,
        environment: &Environment,
        model: &'a Model,
        signature_index: LiteRtParamIndex,
    ) -> (r: Result<BufferCreation<'a>, Error>)
        ensures
            match r {
                Ok(creation) => CreationView::begin(
                    self.raw(),
                    environment.raw(),
                    *model,
                    signature_index,
                    InputOutputNamesIteratorKind::Output,
                ) == Ok::<CreationView, Error>(creation@),
                Err(e) => CreationView::begin(
                    self.raw(),
                    environment.raw(),
                    *model,
                    signature_index,
                    InputOutputNamesIteratorKind::Output,
                ) == Err::<CreationView, Error>(e),
            },
    {
        self.create_tensor_buffers(
            environment,
            model,
            signature_index,
            InputOutputNamesIteratorKind::Output,
        )
    }

    /// Plans the buffer of a tensor under given requirements.
    pub fn create_buffer_impl(
        environment: LiteRtHandle,
        requirements: &TensorBufferRequirements,
        tensor: &Tensor,
    ) -> (r: Result<BufferPlan, Error>)
        ensures
            r == plan_of(environment, *requirements, *tensor),
    {
        let supported_types = match requirements.supported_types() {
            Ok(supported_types) => supported_types,
            Err(e) => {
                return Err(e);
            },
        };
        // For simplicity we just pick the first supported tensor buffer type.
        if supported_types.len() == 0 {
            return Err(
                Error::new(
                    ErrorCause::InputDoesntSupportAnyTensorBufferTypes,
                    LiteRtStatus_kLiteRtStatusErrorInvalidArgument,
                ),
            );
        }
        let buffer_type = supported_types[0];
        let tensor_type = match tensor.ranked_tensor_type() {
            Ok(tensor_type) => tensor_type,
            Err(e) => {
                return Err(e);
            },
        };
        let element_type = match tensor.element_type() {
            Ok(element_type) => element_type,
            Err(e) => {
                return Err(e);
            },
        };
        let buffer_size = match requirements.buffer_size() {
            Ok(buffer_size) => buffer_size,
            Err(e) => {
                return Err(e);
            },
        };
        Ok(
            BufferPlan {
                request: ManagedBufferRequest {
                    environment,
                    buffer_type: buffer_type.to_c_enum(),
                    tensor_type,
                    buffer_size,
                },
                element_type,
            },
        )
    }

    /// Prepares the run of inference on the compiled model: the arguments of
    /// the one engine call that runs it, with the addresses of the input and
    /// of the output buffers in the order given.
    pub fn run(
        &self,
        signature_index: LiteRtParamIndex,
        input: &Vec<TensorBuffer>,
        output: &Vec<TensorBuffer>,
    ) -> (call: RunCall)
        ensures
            call.compiled_model == self.raw(),
            call.signature_index == signature_index,
            call.inputs@ == buffer_handles(input@),
            call.outputs@ == buffer_handles(output@),
    {
        let input_ptrs = raw_buffers(input);
        let output_ptrs = raw_buffers(output);
        RunCall {
            compiled_model: self.raw_compiled_model,
            signature_index,
            inputs: input_ptrs,
            outputs: output_ptrs,
        }
    }
}

/// Plans the buffer at the position that the names have reached, and moves
/// the names one position on.
fn plan_position<'a>(
    environment: LiteRtHandle,
    subgraph: &'a Subgraph,
    names: &mut InputOutputNamesIterator<'a>,
    answer: &Reply<TensorBufferRequirements>,
) -> (r: Result<BufferPlan, Error>)
    requires
        old(names).remaining() > 0,
    ensures
        r == plan_at(
            environment,
            old(names).signature(),
            *subgraph,
            old(names).kind(),
            old(names).index() as int,
            *answer,
        ),
        final(names).signature() == old(names).signature(),
        final(names).kind() == old(names).kind(),
        final(names).total() == old(names).total(),
        r is Ok ==> final(names).index() == old(names).index() + 1,
{
    let kind = names.direction();
    let requirements = match kind {
        InputOutputNamesIteratorKind::Input => CompiledModel::input_buffer_requirements(answer),
        InputOutputNamesIteratorKind::Output => CompiledModel::output_buffer_requirements(answer),
    };
    let requirements = match requirements {
        Ok(requirements) => requirements,
        Err(e) => {
            return Err(e);
        },
    };
    let name = match names.next() {
        Some(Ok(name)) => name,
        Some(Err(e)) => {
            return Err(e);
        },
        None => vstd::pervasive::unreached(),
    };
    let tensor = match kind {
        InputOutputNamesIteratorKind::Input => subgraph.input_tensor_by_name(name),
        InputOutputNamesIteratorKind::Output => subgraph.output_tensor_by_name(name),
    };
    let tensor = match tensor {
        Ok(tensor) => tensor,
        Err(e) => {
            return Err(e);
        },
    };
    CompiledModel::create_buffer_impl(environment, requirements, tensor)
}

impl<'a> BufferCreation<'a> {
    #[verifier::type_invariant]
    spec fn well_formed(&self) -> bool {
        &&& self@.inv()
        &&& match self.step {
            CreationStep::Requirements { .. } => self.names.index() == self.buffers@.len(),
            CreationStep::Allocate(_) => self.names.index() == self.buffers@.len() + 1,
            CreationStep::Done(_) => true,
        }
    }

    /// What the caller is to do next.
    pub fn step(&self) -> (step: CreationStep)
        ensures
            step == self@.step,
            self@.inv(),
    {
        proof {
            use_type_invariant(self);
        }
        self.step
    }

    /// The address of the compiled model that is asked for the requirements.
    pub fn compiled_model(&self) -> (raw: LiteRtHandle)
        ensures
            raw == self@.compiled_model,
    {
        self.compiled_model
    }

    /// Whether the buffers are for the inputs or for the outputs.
    pub fn direction(&self) -> (kind: InputOutputNamesIteratorKind)
        ensures
            kind == self@.kind,
    {
        self.names.direction()
    }

    /// Takes the caller's report of the step that it performed, and decides
    /// the next step. A report that does not answer the current step changes
    /// nothing.
    pub fn advance(self, event: CreationEvent) -> (next: Self)
        ensures
            next@ == self@.advance(event),
    {
        proof {
            use_type_invariant(&self);
            CreationView::lemma_advance_keeps_inv(self@, event);
        }
        let BufferCreation {
            environment,
            compiled_model,
            signature_index,
            subgraph,
            names,
            step,
            element_type,
            buffers,
        } = self;
        let mut names = names;
        let mut buffers = buffers;
        match (step, event) {
            (CreationStep::Requirements { .. }, CreationEvent::Requirements(answer)) => {
                match plan_position(environment, subgraph, &mut names, &answer) {
                    Ok(plan) => BufferCreation {
                        environment,
                        compiled_model,
                        signature_index,
                        subgraph,
                        names,
                        step: CreationStep::Allocate(plan.request),
                        element_type: plan.element_type,
                        buffers,
                    },
                    Err(e) => BufferCreation {
                        environment,
                        compiled_model,
                        signature_index,
                        subgraph,
                        names,
                        step: CreationStep::Done(Err(e)),
                        element_type,
                        buffers,
                    },
                }
            },
            (CreationStep::Allocate(_), CreationEvent::Allocated(created)) => {
                match TensorBuffer::new(element_type, created) {
                    Ok(buffer) => {
                        let ghost before = buffer_views(buffers@);
                        buffers.push(buffer);
                        assert(buffer_views(buffers@) =~= before.push(buffer@));
                        let step = if buffers.len() < names.size_hint().0 {
                            CreationStep::Requirements { signature_index, position: buffers.len() }
                        } else {
                            CreationStep::Done(Ok(()))
                        };
                        BufferCreation {
                            environment,
                            compiled_model,
                            signature_index,
                            subgraph,
                            names,
                            step,
                            element_type,
                            buffers,
                        }
                    },
                    Err(e) => BufferCreation {
                        environment,
                        compiled_model,
                        signature_index,
                        subgraph,
                        names,
                        step: CreationStep::Done(Err(e)),
                        element_type,
                        buffers,
                    },
                }
            },
            (step, _) => BufferCreation {
                environment,
                compiled_model,
                signature_index,
                subgraph,
                names,
                step,
                element_type,
                buffers,
            },
        }
    }

    /// The result of the creation, once it is over: the buffers in the order
    /// of the positions, or the error that ended it.
    pub fn into_result(self) -> (r: Option<Result<Vec<TensorBuffer>, Error>>)
        ensures
            match self@.step {
                CreationStep::Done(Ok(())) => {
                    &&& r is Some
                    &&& r->0 is Ok
                    &&& buffer_views(r->0->Ok_0@) == self@.buffers
                    &&& r->0->Ok_0@.len() == self@.total
                },
                CreationStep::Done(Err(e)) => r is Some && r->0 is Err && r->0->Err_0 == e,
                _ => r is None,
            },
    {
        proof {
            use_type_invariant(&self);
        }
        match self.step {
            CreationStep::Done(Ok(())) => Some(Ok(self.buffers)),
            CreationStep::Done(Err(e)) => Some(Err(e)),
            _ => None,
        }
    }
}

} // verus!
