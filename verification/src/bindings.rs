//! Types and constants of the engine's C interface, and the shape in which
//! the answer of one engine call reaches this library.

#![allow(non_upper_case_globals)]
#![allow(non_camel_case_types)]
#![allow(non_snake_case)]

use vstd::prelude::*;

verus! {

/// Status code that every call of the engine returns.
pub type LiteRtStatus = u32;

pub const LiteRtStatus_kLiteRtStatusOk: LiteRtStatus = 0;

pub const LiteRtStatus_kLiteRtStatusErrorInvalidArgument: LiteRtStatus = 1;

pub const LiteRtStatus_kLiteRtStatusErrorMemoryAllocationFailure: LiteRtStatus = 2;

pub const LiteRtStatus_kLiteRtStatusErrorRuntimeFailure: LiteRtStatus = 3;

pub const LiteRtStatus_kLiteRtStatusErrorMissingInputTensor: LiteRtStatus = 4;

pub const LiteRtStatus_kLiteRtStatusErrorUnsupported: LiteRtStatus = 5;

pub const LiteRtStatus_kLiteRtStatusErrorNotFound: LiteRtStatus = 6;

pub const LiteRtStatus_kLiteRtStatusErrorTimeoutExpired: LiteRtStatus = 7;

pub const LiteRtStatus_kLiteRtStatusErrorWrongVersion: LiteRtStatus = 8;

pub const LiteRtStatus_kLiteRtStatusErrorUnknown: LiteRtStatus = 9;

pub const LiteRtStatus_kLiteRtStatusErrorIndexOOB: LiteRtStatus = 1000;

/// Index of a signature, or of an input or output within one.
pub type LiteRtParamIndex = usize;

/// Address of an engine object. The engine alone gives it a meaning.
pub type LiteRtHandle = usize;

/// Element type of a tensor, as the engine numbers it.
pub type LiteRtElementType = u32;

pub const LiteRtElementType_kLiteRtElementTypeNone: LiteRtElementType = 0;

pub const LiteRtElementType_kLiteRtElementTypeFloat32: LiteRtElementType = 1;

pub const LiteRtElementType_kLiteRtElementTypeInt32: LiteRtElementType = 2;

pub const LiteRtElementType_kLiteRtElementTypeUInt8: LiteRtElementType = 3;

pub const LiteRtElementType_kLiteRtElementTypeInt64: LiteRtElementType = 4;

pub const LiteRtElementType_kLiteRtElementTypeTfString: LiteRtElementType = 5;

pub const LiteRtElementType_kLiteRtElementTypeBool: LiteRtElementType = 6;

pub const LiteRtElementType_kLiteRtElementTypeInt16: LiteRtElementType = 7;

pub const LiteRtElementType_kLiteRtElementTypeComplex64: LiteRtElementType = 8;

pub const LiteRtElementType_kLiteRtElementTypeInt8: LiteRtElementType = 9;

pub const LiteRtElementType_kLiteRtElementTypeFloat16: LiteRtElementType = 10;

pub const LiteRtElementType_kLiteRtElementTypeFloat64: LiteRtElementType = 11;

pub const LiteRtElementType_kLiteRtElementTypeComplex128: LiteRtElementType = 12;

pub const LiteRtElementType_kLiteRtElementTypeUInt64: LiteRtElementType = 13;

pub const LiteRtElementType_kLiteRtElementTypeTfResource: LiteRtElementType = 14;

pub const LiteRtElementType_kLiteRtElementTypeTfVariant: LiteRtElementType = 15;

pub const LiteRtElementType_kLiteRtElementTypeUInt32: LiteRtElementType = 16;

pub const LiteRtElementType_kLiteRtElementTypeUInt16: LiteRtElementType = 17;

pub const LiteRtElementType_kLiteRtElementTypeInt4: LiteRtElementType = 18;

pub const LiteRtElementType_kLiteRtElementTypeBFloat16: LiteRtElementType = 19;

/// Kind of storage behind a tensor buffer, as the engine numbers it.
pub type LiteRtTensorBufferType = u32;

pub const LiteRtTensorBufferType_kLiteRtTensorBufferTypeUnknown: LiteRtTensorBufferType = 0;

pub const LiteRtTensorBufferType_kLiteRtTensorBufferTypeHostMemory: LiteRtTensorBufferType = 1;

pub const LiteRtTensorBufferType_kLiteRtTensorBufferTypeAhwb: LiteRtTensorBufferType = 2;

pub const LiteRtTensorBufferType_kLiteRtTensorBufferTypeIon: LiteRtTensorBufferType = 3;

pub const LiteRtTensorBufferType_kLiteRtTensorBufferTypeDmaBuf: LiteRtTensorBufferType = 4;

pub const LiteRtTensorBufferType_kLiteRtTensorBufferTypeFastRpc: LiteRtTensorBufferType = 5;

pub const LiteRtTensorBufferType_kLiteRtTensorBufferTypeGlBuffer: LiteRtTensorBufferType = 6;

pub const LiteRtTensorBufferType_kLiteRtTensorBufferTypeGlTexture: LiteRtTensorBufferType = 7;

pub const LiteRtTensorBufferType_kLiteRtTensorBufferTypeOpenClBuffer: LiteRtTensorBufferType = 10;

pub const LiteRtTensorBufferType_kLiteRtTensorBufferTypeOpenClBufferFp16: LiteRtTensorBufferType =
    11;

pub const LiteRtTensorBufferType_kLiteRtTensorBufferTypeOpenClTexture: LiteRtTensorBufferType = 12;

pub const LiteRtTensorBufferType_kLiteRtTensorBufferTypeOpenClTextureFp16: LiteRtTensorBufferType =
    13;

pub const LiteRtTensorBufferType_kLiteRtTensorBufferTypeOpenClBufferPacked: LiteRtTensorBufferType =
    14;

/// Set of hardware accelerators, one bit each.
pub type LiteRtHwAccelerators = u32;

pub const LiteRtHwAccelerators_kLiteRtHwAcceleratorNone: LiteRtHwAccelerators = 0;

pub const LiteRtHwAccelerators_kLiteRtHwAcceleratorCpu: LiteRtHwAccelerators = 1;

pub const LiteRtHwAccelerators_kLiteRtHwAcceleratorGpu: LiteRtHwAccelerators = 2;

pub const LiteRtHwAccelerators_kLiteRtHwAcceleratorNpu: LiteRtHwAccelerators = 4;

/// Tag of an environment option.
pub type LiteRtEnvOptionTag = u32;

pub const LiteRtEnvOptionTag_kLiteRtEnvOptionTagCompilerPluginLibraryDir: LiteRtEnvOptionTag = 0;

pub const LiteRtEnvOptionTag_kLiteRtEnvOptionTagDispatchLibraryDir: LiteRtEnvOptionTag = 1;

pub const LiteRtEnvOptionTag_kLiteRtEnvOptionTagOpenClDeviceId: LiteRtEnvOptionTag = 2;

pub const LiteRtEnvOptionTag_kLiteRtEnvOptionTagOpenClPlatformId: LiteRtEnvOptionTag = 3;

pub const LiteRtEnvOptionTag_kLiteRtEnvOptionTagOpenClContext: LiteRtEnvOptionTag = 4;

pub const LiteRtEnvOptionTag_kLiteRtEnvOptionTagOpenClCommandQueue: LiteRtEnvOptionTag = 5;

pub const LiteRtEnvOptionTag_kLiteRtEnvOptionTagEglDisplay: LiteRtEnvOptionTag = 6;

pub const LiteRtEnvOptionTag_kLiteRtEnvOptionTagEglContext: LiteRtEnvOptionTag = 7;

pub const LiteRtEnvOptionTag_kLiteRtEnvOptionTagWebGpuDevice: LiteRtEnvOptionTag = 8;

pub const LiteRtEnvOptionTag_kLiteRtEnvOptionTagWebGpuQueue: LiteRtEnvOptionTag = 9;

pub const LiteRtEnvOptionTag_kLiteRtEnvOptionTagMetalDevice: LiteRtEnvOptionTag = 10;

pub const LiteRtEnvOptionTag_kLiteRtEnvOptionTagMetalCommandQueue: LiteRtEnvOptionTag = 11;

/// Discriminator of the engine's dynamically typed value.
pub type LiteRtAnyType = u32;

pub const LiteRtAnyType_kLiteRtAnyTypeNone: LiteRtAnyType = 0;

pub const LiteRtAnyType_kLiteRtAnyTypeBool: LiteRtAnyType = 1;

pub const LiteRtAnyType_kLiteRtAnyTypeInt: LiteRtAnyType = 2;

pub const LiteRtAnyType_kLiteRtAnyTypeReal: LiteRtAnyType = 3;

pub const LiteRtAnyType_kLiteRtAnyTypeString: LiteRtAnyType = 4;

pub const LiteRtAnyType_kLiteRtAnyTypeVoidPtr: LiteRtAnyType = 5;

/// Whether a tensor's type is ranked or unranked.
pub type LiteRtTensorTypeId = u32;

pub const LiteRtTensorTypeId_kLiteRtRankedTensorType: LiteRtTensorTypeId = 0;

pub const LiteRtTensorTypeId_kLiteRtUnrankedTensorType: LiteRtTensorTypeId = 1;

/// Mode in which a tensor buffer is locked.
pub type LiteRtTensorBufferLockMode = u32;

pub const LiteRtTensorBufferLockMode_kLiteRtTensorBufferLockModeRead: LiteRtTensorBufferLockMode =
    0;

pub const LiteRtTensorBufferLockMode_kLiteRtTensorBufferLockModeWrite: LiteRtTensorBufferLockMode =
    1;

/// Largest rank that a layout can describe.
pub const LITERT_TENSOR_MAX_RANK: usize = 8;

/// Shape of a ranked tensor.
#[derive(Clone, Copy, Debug, PartialEq, Eq)]
pub struct LiteRtLayout {
    pub rank: u32,
    pub has_strides: bool,
    pub dimensions: [i32; LITERT_TENSOR_MAX_RANK],
    pub strides: [u32; LITERT_TENSOR_MAX_RANK],
}

/// Type of a tensor whose shape is known.
#[derive(Clone, Copy, Debug, PartialEq, Eq)]
pub struct LiteRtRankedTensorType {
    pub element_type: LiteRtElementType,
    pub layout: LiteRtLayout,
}

/// Type of a tensor of which only the element type is known.
#[derive(Clone, Copy, Debug, PartialEq, Eq)]
pub struct LiteRtUnrankedTensorType {
    pub element_type: LiteRtElementType,
}

/// What one engine call handed back: its status, and what stood in its
/// output parameter when it returned. After a failed call the engine has
/// promised nothing about `value`, and nothing in this library reads it.
#[derive(Clone, Copy, Debug, PartialEq, Eq)]
pub struct Reply<T> {
    pub status: LiteRtStatus,
    pub value: T,
}

impl<T> Reply<T> {
    /// The call reported success.
    pub open spec fn is_ok(&self) -> bool {
        self.status == LiteRtStatus_kLiteRtStatusOk
    }

    pub fn new(status: LiteRtStatus, value: T) -> (reply: Self)
        ensures
            reply.status == status,
            reply.value == value,
    {
        Reply { status, value }
    }
}

/// The answers of an engine accessor that takes an index: one for each index
/// below `replies.len()`, and the one that the engine gives for every other
/// index.
#[derive(Clone, Debug, PartialEq, Eq)]
pub struct Listing<T> {
    pub replies: Vec<Reply<T>>,
    pub beyond: Reply<T>,
}

impl<T> Listing<T> {
    /// The engine's answer for `index`.
    pub open spec fn reply_at(&self, index: int) -> Reply<T> {
        if 0 <= index < self.replies@.len() {
            self.replies@[index]
        } else {
            self.beyond
        }
    }

    pub fn new(replies: Vec<Reply<T>>, beyond: Reply<T>) -> (listing: Self)
        ensures
            listing.replies == replies,
            listing.beyond == beyond,
    {
        Listing { replies, beyond }
    }

    /// The engine's answer for `index`.
    pub fn at(&self, index: usize) -> (reply: &Reply<T>)
        ensures
            *reply == self.reply_at(index as int),
    {
        if index < self.replies.len() {
            &self.replies[index]
        } else {
            &self.beyond
        }
    }
}

} // verus!
