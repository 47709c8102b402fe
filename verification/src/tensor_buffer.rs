//! Tensor buffers: what an engine asks of one, and the element and storage
//! kinds. A buffer's memory is read and written under the protocol of
//! [`crate::access`].

use crate::bindings::{
    Listing, LiteRtElementType, LiteRtElementType_kLiteRtElementTypeBFloat16,
    LiteRtElementType_kLiteRtElementTypeBool, LiteRtElementType_kLiteRtElementTypeComplex128,
    LiteRtElementType_kLiteRtElementTypeComplex64, LiteRtElementType_kLiteRtElementTypeFloat16,
    LiteRtElementType_kLiteRtElementTypeFloat32, LiteRtElementType_kLiteRtElementTypeFloat64,
    LiteRtElementType_kLiteRtElementTypeInt16, LiteRtElementType_kLiteRtElementTypeInt32,
    LiteRtElementType_kLiteRtElementTypeInt4, LiteRtElementType_kLiteRtElementTypeInt64,
    LiteRtElementType_kLiteRtElementTypeInt8, LiteRtElementType_kLiteRtElementTypeNone,
    LiteRtElementType_kLiteRtElementTypeTfResource, LiteRtElementType_kLiteRtElementTypeTfString,
    LiteRtElementType_kLiteRtElementTypeTfVariant, LiteRtElementType_kLiteRtElementTypeUInt16,
    LiteRtElementType_kLiteRtElementTypeUInt32, LiteRtElementType_kLiteRtElementTypeUInt64,
    LiteRtElementType_kLiteRtElementTypeUInt8, LiteRtHandle, LiteRtRankedTensorType, LiteRtStatus,
    LiteRtStatus_kLiteRtStatusErrorInvalidArgument, LiteRtTensorBufferLockMode,
    LiteRtTensorBufferLockMode_kLiteRtTensorBufferLockModeRead,
    LiteRtTensorBufferLockMode_kLiteRtTensorBufferLockModeWrite,
    LiteRtTensorBufferType, LiteRtTensorBufferType_kLiteRtTensorBufferTypeAhwb,
    LiteRtTensorBufferType_kLiteRtTensorBufferTypeDmaBuf,
    LiteRtTensorBufferType_kLiteRtTensorBufferTypeFastRpc,
    LiteRtTensorBufferType_kLiteRtTensorBufferTypeGlBuffer,
    LiteRtTensorBufferType_kLiteRtTensorBufferTypeGlTexture,
    LiteRtTensorBufferType_kLiteRtTensorBufferTypeHostMemory,
    LiteRtTensorBufferType_kLiteRtTensorBufferTypeIon,
    LiteRtTensorBufferType_kLiteRtTensorBufferTypeOpenClBuffer,
    LiteRtTensorBufferType_kLiteRtTensorBufferTypeOpenClBufferFp16,
    LiteRtTensorBufferType_kLiteRtTensorBufferTypeOpenClBufferPacked,
    LiteRtTensorBufferType_kLiteRtTensorBufferTypeOpenClTexture,
    LiteRtTensorBufferType_kLiteRtTensorBufferTypeOpenClTextureFp16,
    LiteRtTensorBufferType_kLiteRtTensorBufferTypeUnknown, Reply,
};
use crate::access::{lock_cause, AccessView, TensorBufferAccess};
use crate::environment::Environment;
use crate::error::{check_status, status_outcome, Error, ErrorCause};
use vstd::prelude::*;

verus! {

/// The element type of a tensor or of a tensor buffer.
#[derive(Debug, Clone, Copy, PartialEq, Eq, Structural)]
pub enum ElementType {
    NoType,
    Bool,
    Int4,
    Int8,
    Int16,
    Int32,
    Int64,
    UInt8,
    UInt16,
    UInt32,
    UInt64,
    Float16,
    BFloat16,
    Float32,
    Float64,
    Complex64,
    Complex128,
    TfResource,
    TfString,
    TfVariant,
}

/// The type of the elements that a caller holds in its own memory.
#[derive(Debug, Clone, Copy, PartialEq, Eq, Structural)]
pub enum HostType {
    Bool,
    I8,
    I16,
    I32,
    I64,
    U8,
    U16,
    U32,
    U64,
    F32,
    F64,
}

impl HostType {
    /// Number of bytes that one element takes.
    pub open spec fn width(self) -> nat {
        match self {
            HostType::Bool | HostType::I8 | HostType::U8 => 1,
            HostType::I16 | HostType::U16 => 2,
            HostType::I32 | HostType::U32 | HostType::F32 => 4,
            HostType::I64 | HostType::U64 | HostType::F64 => 8,
        }
    }

    /// Number of bytes that one element takes.
    pub fn size_in_bytes(self) -> (n: usize)
        ensures
            n == self.width(),
            n > 0,
    {
        match self {
            HostType::Bool | HostType::I8 | HostType::U8 => 1,
            HostType::I16 | HostType::U16 => 2,
            HostType::I32 | HostType::U32 | HostType::F32 => 4,
            HostType::I64 | HostType::U64 | HostType::F64 => 8,
        }
    }
}

/// The compatibility table: which host types may be copied to and from a
/// buffer of a given element type. The integers of 8, 16 and 32 bits go by
/// their width: a signed and an unsigned host type of one width are both
/// compatible with the signed and with the unsigned element type of that
/// width. An element type that no line names is compatible with nothing, and
/// so is a host type that no line names.
pub open spec fn compatible(element: ElementType, host: HostType) -> bool {
    match host {
        HostType::Bool => element == ElementType::Bool,
        HostType::I8 | HostType::U8 => element == ElementType::Int8 || element
            == ElementType::UInt8,
        HostType::I16 | HostType::U16 => element == ElementType::Int16 || element
            == ElementType::UInt16,
        HostType::I32 | HostType::U32 => element == ElementType::Int32 || element
            == ElementType::UInt32,
        HostType::F32 => element == ElementType::Float32,
        HostType::F64 => element == ElementType::Float64,
        HostType::I64 | HostType::U64 => false,
    }
}

impl ElementType {
    /// The engine's number for this element type.
    pub open spec fn c_value(self) -> LiteRtElementType {
        match self {
            Self::NoType => LiteRtElementType_kLiteRtElementTypeNone,
            Self::Bool => LiteRtElementType_kLiteRtElementTypeBool,
            Self::Int4 => LiteRtElementType_kLiteRtElementTypeInt4,
            Self::Int8 => LiteRtElementType_kLiteRtElementTypeInt8,
            Self::Int16 => LiteRtElementType_kLiteRtElementTypeInt16,
            Self::Int32 => LiteRtElementType_kLiteRtElementTypeInt32,
            Self::Int64 => LiteRtElementType_kLiteRtElementTypeInt64,
            Self::UInt8 => LiteRtElementType_kLiteRtElementTypeUInt8,
            Self::UInt16 => LiteRtElementType_kLiteRtElementTypeUInt16,
            Self::UInt32 => LiteRtElementType_kLiteRtElementTypeUInt32,
            Self::UInt64 => LiteRtElementType_kLiteRtElementTypeUInt64,
            Self::Float16 => LiteRtElementType_kLiteRtElementTypeFloat16,
            Self::BFloat16 => LiteRtElementType_kLiteRtElementTypeBFloat16,
            Self::Float32 => LiteRtElementType_kLiteRtElementTypeFloat32,
            Self::Float64 => LiteRtElementType_kLiteRtElementTypeFloat64,
            Self::Complex64 => LiteRtElementType_kLiteRtElementTypeComplex64,
            Self::Complex128 => LiteRtElementType_kLiteRtElementTypeComplex128,
            Self::TfResource => LiteRtElementType_kLiteRtElementTypeTfResource,
            Self::TfString => LiteRtElementType_kLiteRtElementTypeTfString,
            Self::TfVariant => LiteRtElementType_kLiteRtElementTypeTfVariant,
        }
    }

    /// The element type that the engine numbers `enum_value`, or the error
    /// for a number that stands for none.
    pub open spec fn of_c_value(enum_value: LiteRtElementType) -> Result<ElementType, Error> {
        if exists|e: ElementType| e.c_value() == enum_value {
            Ok(choose|e: ElementType| e.c_value() == enum_value)
        } else {
            Err(
                Error {
                    cause: ErrorCause::InvalidElementTypeEnumValue,
                    litert_status: LiteRtStatus_kLiteRtStatusErrorInvalidArgument,
                },
            )
        }
    }

    pub fn to_c_enum(&self) -> (value: LiteRtElementType)
        ensures
            value == self.c_value(),
    {
        match self {
            Self::NoType => LiteRtElementType_kLiteRtElementTypeNone,
            Self::Bool => LiteRtElementType_kLiteRtElementTypeBool,
            Self::Int4 => LiteRtElementType_kLiteRtElementTypeInt4,
            Self::Int8 => LiteRtElementType_kLiteRtElementTypeInt8,
            Self::Int16 => LiteRtElementType_kLiteRtElementTypeInt16,
            Self::Int32 => LiteRtElementType_kLiteRtElementTypeInt32,
            Self::Int64 => LiteRtElementType_kLiteRtElementTypeInt64,
            Self::UInt8 => LiteRtElementType_kLiteRtElementTypeUInt8,
            Self::UInt16 => LiteRtElementType_kLiteRtElementTypeUInt16,
            Self::UInt32 => LiteRtElementType_kLiteRtElementTypeUInt32,
            Self::UInt64 => LiteRtElementType_kLiteRtElementTypeUInt64,
            Self::Float16 => LiteRtElementType_kLiteRtElementTypeFloat16,
            Self::BFloat16 => LiteRtElementType_kLiteRtElementTypeBFloat16,
            Self::Float32 => LiteRtElementType_kLiteRtElementTypeFloat32,
            Self::Float64 => LiteRtElementType_kLiteRtElementTypeFloat64,
            Self::Complex64 => LiteRtElementType_kLiteRtElementTypeComplex64,
            Self::Complex128 => LiteRtElementType_kLiteRtElementTypeComplex128,
            Self::TfResource => LiteRtElementType_kLiteRtElementTypeTfResource,
            Self::TfString => LiteRtElementType_kLiteRtElementTypeTfString,
            Self::TfVariant => LiteRtElementType_kLiteRtElementTypeTfVariant,
        }
    }

    pub fn from_c_enum(enum_value: LiteRtElementType) -> (r: Result<ElementType, Error>)
        ensures
            r == Self::of_c_value(enum_value),
            r is Ok ==> r->Ok_0.c_value() == enum_value,
            r is Err ==> forall|e: ElementType| e.c_value() != enum_value,
    {
        let r = match enum_value {
            LiteRtElementType_kLiteRtElementTypeNone => Ok(Self::NoType),
            LiteRtElementType_kLiteRtElementTypeBool => Ok(Self::Bool),
            LiteRtElementType_kLiteRtElementTypeInt4 => Ok(Self::Int4),
            LiteRtElementType_kLiteRtElementTypeInt8 => Ok(Self::Int8),
            LiteRtElementType_kLiteRtElementTypeInt16 => Ok(Self::Int16),
            LiteRtElementType_kLiteRtElementTypeInt32 => Ok(Self::Int32),
            LiteRtElementType_kLiteRtElementTypeInt64 => Ok(Self::Int64),
            LiteRtElementType_kLiteRtElementTypeUInt8 => Ok(Self::UInt8),
            LiteRtElementType_kLiteRtElementTypeUInt16 => Ok(Self::UInt16),
            LiteRtElementType_kLiteRtElementTypeUInt32 => Ok(Self::UInt32),
            LiteRtElementType_kLiteRtElementTypeUInt64 => Ok(Self::UInt64),
            LiteRtElementType_kLiteRtElementTypeFloat16 => Ok(Self::Float16),
            LiteRtElementType_kLiteRtElementTypeBFloat16 => Ok(Self::BFloat16),
            LiteRtElementType_kLiteRtElementTypeFloat32 => Ok(Self::Float32),
            LiteRtElementType_kLiteRtElementTypeFloat64 => Ok(Self::Float64),
            LiteRtElementType_kLiteRtElementTypeComplex64 => Ok(Self::Complex64),
            LiteRtElementType_kLiteRtElementTypeComplex128 => Ok(Self::Complex128),
            LiteRtElementType_kLiteRtElementTypeTfResource => Ok(Self::TfResource),
            LiteRtElementType_kLiteRtElementTypeTfString => Ok(Self::TfString),
            LiteRtElementType_kLiteRtElementTypeTfVariant => Ok(Self::TfVariant),
            _ => Err(
                Error::new(
                    ErrorCause::InvalidElementTypeEnumValue,
                    LiteRtStatus_kLiteRtStatusErrorInvalidArgument,
                ),
            ),
        };
        proof {
            if let Ok(e) = r {
                assert(e.c_value() == enum_value);
                Self::lemma_c_value_is_injective(
                    e,
                    choose|o: ElementType| o.c_value() == enum_value,
                );
            }
        }
        r
    }

    /// Whether elements of the host type may be copied to and from a buffer
    /// of this element type.
    pub fn is_compatible(self, host: HostType) -> (b: bool)
        ensures
            b == compatible(self, host),
    {
        match host {
            HostType::Bool => self == Self::Bool,
            HostType::I8 | HostType::U8 => self == Self::Int8 || self == Self::UInt8,
            HostType::I16 | HostType::U16 => self == Self::Int16 || self == Self::UInt16,
            HostType::I32 | HostType::U32 => self == Self::Int32 || self == Self::UInt32,
            HostType::F32 => self == Self::Float32,
            HostType::F64 => self == Self::Float64,
            HostType::I64 | HostType::U64 => false,
        }
    }

    /// No two element types share a number.
    pub proof fn lemma_c_value_is_injective(a: ElementType, b: ElementType)
        requires
            a.c_value() == b.c_value(),
        ensures
            a == b,
    {
    }

    /// Converting an element type to the engine's number and back gives the
    /// element type again.
    pub proof fn lemma_c_value_round_trip(e: ElementType)
        ensures
            Self::of_c_value(e.c_value()) == Ok::<ElementType, Error>(e),
    {
        let back = choose|o: ElementType| o.c_value() == e.c_value();
        Self::lemma_c_value_is_injective(e, back);
    }
}

/// The kind of storage behind a tensor buffer.
#[derive(Debug, Clone, Copy, PartialEq, Eq, Structural)]
pub enum TensorBufferType {
    Unknown,
    HostMemory,
    Ahwb,
    Ion,
    DmaBuf,
    FastRpc,
    GlBuffer,
    GlTexture,
    OpenClBuffer,
    OpenClBufferFp16,
    OpenClTexture,
    OpenClTextureFp16,
    OpenClBufferPacked,
}

impl TensorBufferType {
    /// The engine's number for this kind of storage.
    pub open spec fn c_value(self) -> LiteRtTensorBufferType {
        match self {
            Self::Unknown => LiteRtTensorBufferType_kLiteRtTensorBufferTypeUnknown,
            Self::HostMemory => LiteRtTensorBufferType_kLiteRtTensorBufferTypeHostMemory,
            Self::Ahwb => LiteRtTensorBufferType_kLiteRtTensorBufferTypeAhwb,
            Self::Ion => LiteRtTensorBufferType_kLiteRtTensorBufferTypeIon,
            Self::DmaBuf => LiteRtTensorBufferType_kLiteRtTensorBufferTypeDmaBuf,
            Self::FastRpc => LiteRtTensorBufferType_kLiteRtTensorBufferTypeFastRpc,
            Self::GlBuffer => LiteRtTensorBufferType_kLiteRtTensorBufferTypeGlBuffer,
            Self::GlTexture => LiteRtTensorBufferType_kLiteRtTensorBufferTypeGlTexture,
            Self::OpenClBuffer => LiteRtTensorBufferType_kLiteRtTensorBufferTypeOpenClBuffer,
            Self::OpenClBufferFp16 => LiteRtTensorBufferType_kLiteRtTensorBufferTypeOpenClBufferFp16,
            Self::OpenClTexture => LiteRtTensorBufferType_kLiteRtTensorBufferTypeOpenClTexture,
            Self::OpenClTextureFp16 => LiteRtTensorBufferType_kLiteRtTensorBufferTypeOpenClTextureFp16,
            Self::OpenClBufferPacked => LiteRtTensorBufferType_kLiteRtTensorBufferTypeOpenClBufferPacked,
        }
    }

    /// The kind of storage that the engine numbers `enum_value`, or the
    /// error for a number that stands for none.
    pub open spec fn of_c_value(enum_value: LiteRtTensorBufferType) -> Result<
        TensorBufferType,
        Error,
    > {
        if exists|t: TensorBufferType| t.c_value() == enum_value {
            Ok(choose|t: TensorBufferType| t.c_value() == enum_value)
        } else {
            Err(
                Error {
                    cause: ErrorCause::InvalidTensorBufferTypeEnumValue,
                    litert_status: LiteRtStatus_kLiteRtStatusErrorInvalidArgument,
                },
            )
        }
    }

    pub fn to_c_enum(&self) -> (value: LiteRtTensorBufferType)
        ensures
            value == self.c_value(),
    {
        match self {
            Self::Unknown => LiteRtTensorBufferType_kLiteRtTensorBufferTypeUnknown,
            Self::HostMemory => LiteRtTensorBufferType_kLiteRtTensorBufferTypeHostMemory,
            Self::Ahwb => LiteRtTensorBufferType_kLiteRtTensorBufferTypeAhwb,
            Self::Ion => LiteRtTensorBufferType_kLiteRtTensorBufferTypeIon,
            Self::DmaBuf => LiteRtTensorBufferType_kLiteRtTensorBufferTypeDmaBuf,
            Self::FastRpc => LiteRtTensorBufferType_kLiteRtTensorBufferTypeFastRpc,
            Self::GlBuffer => LiteRtTensorBufferType_kLiteRtTensorBufferTypeGlBuffer,
            Self::GlTexture => LiteRtTensorBufferType_kLiteRtTensorBufferTypeGlTexture,
            Self::OpenClBuffer => LiteRtTensorBufferType_kLiteRtTensorBufferTypeOpenClBuffer,
            Self::OpenClBufferFp16 => LiteRtTensorBufferType_kLiteRtTensorBufferTypeOpenClBufferFp16,
            Self::OpenClTexture => LiteRtTensorBufferType_kLiteRtTensorBufferTypeOpenClTexture,
            Self::OpenClTextureFp16 => LiteRtTensorBufferType_kLiteRtTensorBufferTypeOpenClTextureFp16,
            Self::OpenClBufferPacked => LiteRtTensorBufferType_kLiteRtTensorBufferTypeOpenClBufferPacked,
        }
    }

    pub fn from_c_enum(enum_value: LiteRtTensorBufferType) -> (r: Result<TensorBufferType, Error>)
        ensures
            r == Self::of_c_value(enum_value),
            r is Ok ==> r->Ok_0.c_value() == enum_value,
            r is Err ==> forall|t: TensorBufferType| t.c_value() != enum_value,
    {
        let r = match enum_value {
            LiteRtTensorBufferType_kLiteRtTensorBufferTypeUnknown => Ok(Self::Unknown),
            LiteRtTensorBufferType_kLiteRtTensorBufferTypeHostMemory => Ok(Self::HostMemory),
            LiteRtTensorBufferType_kLiteRtTensorBufferTypeAhwb => Ok(Self::Ahwb),
            LiteRtTensorBufferType_kLiteRtTensorBufferTypeIon => Ok(Self::Ion),
            LiteRtTensorBufferType_kLiteRtTensorBufferTypeDmaBuf => Ok(Self::DmaBuf),
            LiteRtTensorBufferType_kLiteRtTensorBufferTypeFastRpc => Ok(Self::FastRpc),
            LiteRtTensorBufferType_kLiteRtTensorBufferTypeGlBuffer => Ok(Self::GlBuffer),
            LiteRtTensorBufferType_kLiteRtTensorBufferTypeGlTexture => Ok(Self::GlTexture),
            LiteRtTensorBufferType_kLiteRtTensorBufferTypeOpenClBuffer => Ok(Self::OpenClBuffer),
            LiteRtTensorBufferType_kLiteRtTensorBufferTypeOpenClBufferFp16 => Ok(Self::OpenClBufferFp16),
            LiteRtTensorBufferType_kLiteRtTensorBufferTypeOpenClTexture => Ok(Self::OpenClTexture),
            LiteRtTensorBufferType_kLiteRtTensorBufferTypeOpenClTextureFp16 => Ok(Self::OpenClTextureFp16),
            LiteRtTensorBufferType_kLiteRtTensorBufferTypeOpenClBufferPacked => Ok(Self::OpenClBufferPacked),
            _ => Err(
                Error::new(
                    ErrorCause::InvalidTensorBufferTypeEnumValue,
                    LiteRtStatus_kLiteRtStatusErrorInvalidArgument,
                ),
            ),
        };
        proof {
            if let Ok(t) = r {
                assert(t.c_value() == enum_value);
                Self::lemma_c_value_is_injective(
                    t,
                    choose|o: TensorBufferType| o.c_value() == enum_value,
                );
            }
        }
        r
    }

    /// No two kinds of storage share a number.
    pub proof fn lemma_c_value_is_injective(a: TensorBufferType, b: TensorBufferType)
        requires
            a.c_value() == b.c_value(),
        ensures
            a == b,
    {
    }

    /// Converting a kind of storage to the engine's number and back gives
    /// the kind again.
    pub proof fn lemma_c_value_round_trip(t: TensorBufferType)
        ensures
            Self::of_c_value(t.c_value()) == Ok::<TensorBufferType, Error>(t),
    {
        let back = choose|o: TensorBufferType| o.c_value() == t.c_value();
        Self::lemma_c_value_is_injective(t, back);
    }
}

/// What the engine asks of the buffer at one input or output position: the
/// answers of the accessors of one requirements object.
#[derive(Debug, Clone, PartialEq, Eq)]
pub struct TensorBufferRequirements {
    pub raw_requirements: LiteRtHandle,
    /// Answer to the query for the buffer's size in bytes.
    pub buffer_size: Reply<usize>,
    /// Answer to the query for the number of supported kinds of storage.
    pub num_supported_types: Reply<i32>,
    /// Answers to the queries for the supported kind at each index.
    pub supported_types: Listing<LiteRtTensorBufferType>,
}

impl TensorBufferRequirements {
    pub fn new(
        raw_requirements: LiteRtHandle,
        buffer_size: Reply<usize>,
        num_supported_types: Reply<i32>,
        supported_types: Listing<LiteRtTensorBufferType>,
    ) -> (requirements: Self)
        ensures
            requirements.raw_requirements == raw_requirements,
            requirements.buffer_size == buffer_size,
            requirements.num_supported_types == num_supported_types,
            requirements.supported_types == supported_types,
    {
        Self { raw_requirements, buffer_size, num_supported_types, supported_types }
    }

    /// How many supported kinds are asked for one by one: the reported
    /// number, or none where that number is negative.
    pub open spec fn supported_count(&self) -> int {
        if self.num_supported_types.value < 0 {
            0
        } else {
            self.num_supported_types.value as int
        }
    }

    /// The supported kind at `index`, as far as the engine's answer gives one.
    pub open spec fn supported_type_at(&self, index: int) -> Result<TensorBufferType, Error> {
        let reply = self.supported_types.reply_at(index);
        if reply.is_ok() {
            TensorBufferType::of_c_value(reply.value)
        } else {
            Err(
                Error {
                    cause: ErrorCause::GetTensorBufferRequirementsSupportedTensorBufferType,
                    litert_status: reply.status,
                },
            )
        }
    }

    /// The supported kinds at the indices below `n`, in order, or the error
    /// of the first index that gives none.
    pub open spec fn supported_prefix(&self, n: int) -> Result<Seq<TensorBufferType>, Error>
        decreases n,
    {
        if n <= 0 {
            Ok(Seq::empty())
        } else {
            match self.supported_prefix(n - 1) {
                Err(e) => Err(e),
                Ok(types) => match self.supported_type_at(n - 1) {
                    Ok(t) => Ok(types.push(t)),
                    Err(e) => Err(e),
                },
            }
        }
    }

    /// The supported kinds of storage, in the engine's order.
    pub open spec fn supported_types_outcome(&self) -> Result<Seq<TensorBufferType>, Error> {
        if self.num_supported_types.is_ok() {
            self.supported_prefix(self.supported_count())
        } else {
            Err(
                Error {
                    cause: ErrorCause::GetNumTensorBufferRequirementsSupportedBufferTypes,
                    litert_status: self.num_supported_types.status,
                },
            )
        }
    }

    /// Returns the size of the buffer in bytes.
    pub fn buffer_size(&self) -> (r: Result<usize, Error>)
        ensures
            r == self.buffer_size.outcome(ErrorCause::GetTensorBufferRequirementsBufferSize),
    {
        match check_status(
            self.buffer_size.status,
            ErrorCause::GetTensorBufferRequirementsBufferSize,
        ) {
            Ok(()) => Ok(self.buffer_size.value),
            Err(e) => Err(e),
        }
    }

    /// Once the kinds below `n + 1` give an error, so do the kinds below any
    /// larger number, and the same one.
    proof fn lemma_supported_prefix_fails(&self, n: int, m: int)
        requires
            0 <= n < m,
            self.supported_prefix(n + 1) is Err,
        ensures
            self.supported_prefix(m) == self.supported_prefix(n + 1),
        decreases m - n,
    {
        if m > n + 1 {
            self.lemma_supported_prefix_fails(n, m - 1);
        }
    }

    /// Returns the supported kinds of storage, in the engine's order. The
    /// kinds are asked for in index order, and the first index whose answer
    /// is a failure, or a number that stands for no kind, decides the error.
    pub fn supported_types(&self) -> (r: Result<Vec<TensorBufferType>, Error>)
        ensures
            match r {
                Ok(types) => self.supported_types_outcome() == Ok::<Seq<TensorBufferType>, Error>(
                    types@,
                ),
                Err(e) => self.supported_types_outcome() == Err::<Seq<TensorBufferType>, Error>(e),
            },
            !self.num_supported_types.is_ok() ==> r == Err::<Vec<TensorBufferType>, Error>(
                Error {
                    cause: ErrorCause::GetNumTensorBufferRequirementsSupportedBufferTypes,
                    litert_status: self.num_supported_types.status,
                },
            ),
            self.num_supported_types.is_ok() ==> match r {
                Ok(types) => {
                    &&& types@.len() == self.supported_count()
                    &&& forall|i: int|
                        0 <= i < self.supported_count() ==> self.supported_type_at(i) == Ok::<
                            TensorBufferType,
                            Error,
                        >(#[trigger] types@[i])
                },
                Err(e) => exists|i: int|
                    {
                        &&& 0 <= i < self.supported_count()
                        &&& #[trigger] self.supported_type_at(i) == Err::<TensorBufferType, Error>(e)
                        &&& forall|j: int| 0 <= j < i ==> (#[trigger] self.supported_type_at(j)) is Ok
                    },
            },
    {
        match check_status(
            self.num_supported_types.status,
            ErrorCause::GetNumTensorBufferRequirementsSupportedBufferTypes,
        ) {
            Ok(()) => {},
            Err(e) => {
                return Err(e);
            },
        }
        let num_supported_types: i32 = self.num_supported_types.value;
        let mut result: Vec<TensorBufferType> = Vec::new();
        let mut i: i32 = 0;
        while i < num_supported_types
            invariant
                0 <= i <= self.supported_count(),
                self.num_supported_types.is_ok(),
                self.supported_prefix(i as int) == Ok::<Seq<TensorBufferType>, Error>(result@),
                num_supported_types == self.num_supported_types.value,
                result@.len() == i,
                forall|k: int|
                    #![trigger result@[k]]
                    #![trigger self.supported_type_at(k)]
                    0 <= k < i ==> self.supported_type_at(k) == Ok::<TensorBufferType, Error>(
                        result@[k],
                    ),
            decreases num_supported_types - i,
        {
            let reply = self.supported_types.at(i as usize);
            match check_status(
                reply.status,
                ErrorCause::GetTensorBufferRequirementsSupportedTensorBufferType,
            ) {
                Ok(()) => {},
                Err(e) => {
                    assert(self.supported_type_at(i as int) == Err::<TensorBufferType, Error>(e));
                    proof {
                        self.lemma_supported_prefix_fails(i as int, self.supported_count());
                    }
                    return Err(e);
                },
            }
            match TensorBufferType::from_c_enum(reply.value) {
                Ok(ttype) => {
                    result.push(ttype);
                },
                Err(e) => {
                    assert(self.supported_type_at(i as int) == Err::<TensorBufferType, Error>(e));
                    proof {
                        self.lemma_supported_prefix_fails(i as int, self.supported_count());
                    }
                    return Err(e);
                },
            }
            i = i + 1;
        }
        Ok(result)
    }
}

/// The mode in which a buffer is locked.
#[derive(Debug, Clone, Copy, PartialEq, Eq, Structural)]
pub enum LockMode {
    Read,
    Write,
}

impl LockMode {
    /// The engine's number for this mode.
    pub open spec fn c_value(self) -> LiteRtTensorBufferLockMode {
        match self {
            Self::Read => LiteRtTensorBufferLockMode_kLiteRtTensorBufferLockModeRead,
            Self::Write => LiteRtTensorBufferLockMode_kLiteRtTensorBufferLockModeWrite,
        }
    }

    pub fn to_c_enum(&self) -> (value: LiteRtTensorBufferLockMode)
        ensures
            value == self.c_value(),
    {
        match self {
            Self::Read => LiteRtTensorBufferLockMode_kLiteRtTensorBufferLockModeRead,
            Self::Write => LiteRtTensorBufferLockMode_kLiteRtTensorBufferLockModeWrite,
        }
    }
}

/// The arguments of the engine call that allocates a managed buffer.
#[derive(Debug, Clone, Copy, PartialEq, Eq)]
pub struct ManagedBufferRequest {
    pub environment: LiteRtHandle,
    pub buffer_type: LiteRtTensorBufferType,
    pub tensor_type: LiteRtRankedTensorType,
    pub buffer_size: usize,
}

/// What a tensor buffer is: the engine's buffer, and the element type that
/// it was allocated for.
pub struct TensorBufferView {
    pub raw_tensor_buffer: LiteRtHandle,
    pub element_type: ElementType,
}

/// A buffer that the engine allocated and manages. Its memory is reached
/// only under a lock: see [`TensorBufferAccess`].
#[derive(Debug)]
pub struct TensorBuffer {
    raw_tensor_buffer: LiteRtHandle,
    element_type: ElementType,
}

impl View for TensorBuffer {
    type V = TensorBufferView;

    closed spec fn view(&self) -> TensorBufferView {
        TensorBufferView {
            raw_tensor_buffer: self.raw_tensor_buffer,
            element_type: self.element_type,
        }
    }
}

impl TensorBuffer {
    /// The arguments of the call that allocates a managed buffer of the
    /// given kind and size in an environment.
    pub fn request(
        environment: &Environment,
        tensor_type: &LiteRtRankedTensorType,
        buffer_type: &TensorBufferType,
        buffer_size: usize,
    ) -> (request: ManagedBufferRequest)
        ensures
            request == (ManagedBufferRequest {
                environment: environment.raw(),
                buffer_type: buffer_type.c_value(),
                tensor_type: *tensor_type,
                buffer_size,
            }),
    {
        ManagedBufferRequest {
            environment: environment.raw_environment(),
            buffer_type: buffer_type.to_c_enum(),
            tensor_type: *tensor_type,
            buffer_size,
        }
    }

    /// Makes the buffer that the engine allocated for elements of the given
    /// type. `created` is the engine's answer to the allocation call.
    pub fn new(element_type: ElementType, created: Reply<LiteRtHandle>) -> (r: Result<
        TensorBuffer,
        Error,
    >)
        ensures
            r is Ok <==> created.is_ok(),
            r is Ok ==> r->Ok_0@ == (TensorBufferView {
                raw_tensor_buffer: created.value,
                element_type,
            }),
            r is Err ==> r->Err_0 == (Error {
                cause: ErrorCause::CreateManagedTensorBuffer,
                litert_status: created.status,
            }),
    {
        match check_status(created.status, ErrorCause::CreateManagedTensorBuffer) {
            Ok(()) => {},
            Err(e) => {
                return Err(e);
            },
        }
        Ok(TensorBuffer { raw_tensor_buffer: created.value, element_type })
    }

    /// The address of the engine's buffer.
    pub fn raw_tensor_buffer(&self) -> (raw: LiteRtHandle)
        ensures
            raw == self@.raw_tensor_buffer,
    {
        self.raw_tensor_buffer
    }

    /// Returns the element type of the tensor buffer.
    pub fn element_type(&self) -> (element_type: ElementType)
        ensures
            element_type == self@.element_type,
    {
        self.element_type
    }

    /// What the status of a call that locks for reading means.
    pub(crate) fn lock_read(status: LiteRtStatus) -> (r: Result<(), Error>)
        ensures
            r == status_outcome(status, lock_cause(LockMode::Read)),
    {
        check_status(status, ErrorCause::LockTensorBufferRead)
    }

    /// What the status of a call that locks for writing means.
    pub(crate) fn lock_write(status: LiteRtStatus) -> (r: Result<(), Error>)
        ensures
            r == status_outcome(status, lock_cause(LockMode::Write)),
    {
        check_status(status, ErrorCause::LockTensorBufferWrite)
    }

    /// Returns the size of the tensor buffer in bytes. `answer` is the
    /// engine's answer to the query for the packed size of this buffer.
    pub fn packed_size(&self, answer: Reply<usize>) -> (r: Result<usize, Error>)
        ensures
            r == answer.outcome(ErrorCause::GetTensorBufferPackedSize),
    {
        match check_status(answer.status, ErrorCause::GetTensorBufferPackedSize) {
            Ok(()) => Ok(answer.value),
            Err(e) => Err(e),
        }
    }

    /// Begins to write data to the tensor buffer: `host_bytes` bytes of
    /// elements of the type `host`.
    ///
    /// The host type must be compatible with the element type of the buffer,
    /// and the buffer must be large enough for the data; nothing is ever cut
    /// short. The access returns the number of bytes written.
    pub fn write(&self, host: HostType, host_bytes: usize) -> (access: TensorBufferAccess)
        ensures
            access@ == AccessView::start(self@, LockMode::Write, host, host_bytes),
    {
        TensorBufferAccess::begin(self, LockMode::Write, host, host_bytes)
    }

    /// Begins to read data from the tensor buffer into `host_bytes` bytes of
    /// memory for elements of the type `host`.
    ///
    /// The host type must be compatible with the element type of the buffer,
    /// and the memory must be large enough for the buffer's content. The
    /// access returns the number of elements read.
    pub fn read(&self, host: HostType, host_bytes: usize) -> (access: TensorBufferAccess)
        ensures
            access@ == AccessView::start(self@, LockMode::Read, host, host_bytes),
    {
        TensorBufferAccess::begin(self, LockMode::Read, host, host_bytes)
    }
}

} // verus!
