//! The error that every fallible operation of this library returns.

use crate::bindings::{LiteRtStatus, LiteRtStatus_kLiteRtStatusOk, Reply};
use crate::helper_funs::{c_str_text, c_str_to_str, option_bytes};
use vstd::prelude::*;
use vstd::string::StringExecFns;

verus! {

/// Where an error arose: one member for each engine call that can fail, and
/// one for each check that this library makes itself.
#[derive(Debug, Clone, Copy, PartialEq, Eq, Structural)]
pub enum ErrorCause {
    Unknown,
    // compiled_model
    CreateOptions,
    SetOptionsHardwareAccelerators,
    CreateCompiledModel,
    GetCompiledModelInputBufferRequirements,
    GetCompiledModelOutputBufferRequirements,
    InputDoesntSupportAnyTensorBufferTypes,
    RunCompiledModel,
    // environment
    NotSupportedLiteRtAnyType,
    CreateEnvironment,
    // model
    GetSignatureKey,
    GetSignatureSubgraph,
    GetNumSignatureInputs,
    GetSignatureInputName,
    GetNumSignatureOutputs,
    GetSignatureOutputName,
    GetSignature,
    GetTensorTypeId,
    GetUnrankedTensorType,
    GetRankedTensorType,
    InvalidTensorTypeId,
    GetTensorName,
    GetNumSubgraphInputs,
    GetNumSubgraphOutputs,
    GetSubgraphInput,
    SubgraphInputTensorByNameNotFound,
    GetSubgraphOutput,
    SubgraphOutputTensorByNameNotFound,
    CreateModelFromFile,
    CreateModelFromBuffer,
    GetNumModelSubgraphs,
    GetNumModelSignatures,
    GetModelSignature,
    // tensor_buffer
    GetTensorBufferRequirementsBufferSize,
    GetNumTensorBufferRequirementsSupportedBufferTypes,
    GetTensorBufferRequirementsSupportedTensorBufferType,
    InvalidElementTypeEnumValue,
    InvalidTensorBufferTypeEnumValue,
    CreateManagedTensorBuffer,
    LockTensorBufferRead,
    LockTensorBufferWrite,
    GetTensorBufferPackedSize,
    IncompatibleWriteType,
    TensorBufferTooSmall,
    IncompatibleReadType,
    ReadBufferTooSmall,
    // util
    InvalidStringEncoding,
}

/// A cause together with the status that the engine reported, or, for a check
/// of this library's own, the status that describes the failure best.
#[derive(Debug, Clone, Copy, PartialEq, Eq, Structural)]
pub struct Error {
    pub cause: ErrorCause,
    pub litert_status: LiteRtStatus,
}

impl Error {
    pub fn new(cause: ErrorCause, status: LiteRtStatus) -> (e: Self)
        ensures
            e == (Error { cause, litert_status: status }),
    {
        Error { cause, litert_status: status }
    }

    /// The place in this library at which the error arose.
    pub fn cause(&self) -> (c: ErrorCause)
        ensures
            c == self.cause,
    {
        self.cause
    }

    /// The status that came with the error.
    pub fn litert_status(&self) -> (s: LiteRtStatus)
        ensures
            s == self.litert_status,
    {
        self.litert_status
    }
}

/// What a status means for the call that returned it at `cause`.
pub open spec fn status_outcome(status: LiteRtStatus, cause: ErrorCause) -> Result<(), Error> {
    if status == LiteRtStatus_kLiteRtStatusOk {
        Ok(())
    } else {
        Err(Error { cause, litert_status: status })
    }
}

/// Turns the status of an engine call into a result: any status but OK is a
/// failure, and the failure carries the status unchanged.
pub fn check_status(status: LiteRtStatus, cause: ErrorCause) -> (r: Result<(), Error>)
    ensures
        r == status_outcome(status, cause),
{
    if status != LiteRtStatus_kLiteRtStatusOk {
        return Err(Error::new(cause, status));
    }
    Ok(())
}

impl<T> Reply<T> {
    /// What the reply means for the call made at `cause`: the value that the
    /// call wrote, or the error with the call's status. The value of a
    /// failed call plays no part.
    pub open spec fn outcome(self, cause: ErrorCause) -> Result<T, Error> {
        if self.is_ok() {
            Ok(self.value)
        } else {
            Err(Error { cause, litert_status: self.status })
        }
    }

    /// Checks the status, and only then hands out the value.
    pub fn check(&self, cause: ErrorCause) -> (r: Result<&T, Error>)
        ensures
            match r {
                Ok(value) => self.outcome(cause) == Ok::<T, Error>(*value),
                Err(e) => self.outcome(cause) == Err::<T, Error>(e),
            },
    {
        match check_status(self.status, cause) {
            Ok(()) => Ok(&self.value),
            Err(e) => Err(e),
        }
    }
}

impl ErrorCause {
    /// The cause's name.
    pub open spec fn name_text(self) -> Seq<char> {
        match self {
            Self::Unknown => "Unknown"@,
            Self::CreateOptions => "CreateOptions"@,
            Self::SetOptionsHardwareAccelerators => "SetOptionsHardwareAccelerators"@,
            Self::CreateCompiledModel => "CreateCompiledModel"@,
            Self::GetCompiledModelInputBufferRequirements => "GetCompiledModelInputBufferRequirements"@,
            Self::GetCompiledModelOutputBufferRequirements => "GetCompiledModelOutputBufferRequirements"@,
            Self::InputDoesntSupportAnyTensorBufferTypes => "InputDoesntSupportAnyTensorBufferTypes"@,
            Self::RunCompiledModel => "RunCompiledModel"@,
            Self::NotSupportedLiteRtAnyType => "NotSupportedLiteRtAnyType"@,
            Self::CreateEnvironment => "CreateEnvironment"@,
            Self::GetSignatureKey => "GetSignatureKey"@,
            Self::GetSignatureSubgraph => "GetSignatureSubgraph"@,
            Self::GetNumSignatureInputs => "GetNumSignatureInputs"@,
            Self::GetSignatureInputName => "GetSignatureInputName"@,
            Self::GetNumSignatureOutputs => "GetNumSignatureOutputs"@,
            Self::GetSignatureOutputName => "GetSignatureOutputName"@,
            Self::GetSignature => "GetSignature"@,
            Self::GetTensorTypeId => "GetTensorTypeId"@,
            Self::GetUnrankedTensorType => "GetUnrankedTensorType"@,
            Self::GetRankedTensorType => "GetRankedTensorType"@,
            Self::InvalidTensorTypeId => "InvalidTensorTypeId"@,
            Self::GetTensorName => "GetTensorName"@,
            Self::GetNumSubgraphInputs => "GetNumSubgraphInputs"@,
            Self::GetNumSubgraphOutputs => "GetNumSubgraphOutputs"@,
            Self::GetSubgraphInput => "GetSubgraphInput"@,
            Self::SubgraphInputTensorByNameNotFound => "SubgraphInputTensorByNameNotFound"@,
            Self::GetSubgraphOutput => "GetSubgraphOutput"@,
            Self::SubgraphOutputTensorByNameNotFound => "SubgraphOutputTensorByNameNotFound"@,
            Self::CreateModelFromFile => "CreateModelFromFile"@,
            Self::CreateModelFromBuffer => "CreateModelFromBuffer"@,
            Self::GetNumModelSubgraphs => "GetNumModelSubgraphs"@,
            Self::GetNumModelSignatures => "GetNumModelSignatures"@,
            Self::GetModelSignature => "GetModelSignature"@,
            Self::GetTensorBufferRequirementsBufferSize => "GetTensorBufferRequirementsBufferSize"@,
            Self::GetNumTensorBufferRequirementsSupportedBufferTypes => "GetNumTensorBufferRequirementsSupportedBufferTypes"@,
            Self::GetTensorBufferRequirementsSupportedTensorBufferType => "GetTensorBufferRequirementsSupportedTensorBufferType"@,
            Self::InvalidElementTypeEnumValue => "InvalidElementTypeEnumValue"@,
            Self::InvalidTensorBufferTypeEnumValue => "InvalidTensorBufferTypeEnumValue"@,
            Self::CreateManagedTensorBuffer => "CreateManagedTensorBuffer"@,
            Self::LockTensorBufferRead => "LockTensorBufferRead"@,
            Self::LockTensorBufferWrite => "LockTensorBufferWrite"@,
            Self::GetTensorBufferPackedSize => "GetTensorBufferPackedSize"@,
            Self::IncompatibleWriteType => "IncompatibleWriteType"@,
            Self::TensorBufferTooSmall => "TensorBufferTooSmall"@,
            Self::IncompatibleReadType => "IncompatibleReadType"@,
            Self::ReadBufferTooSmall => "ReadBufferTooSmall"@,
            Self::InvalidStringEncoding => "InvalidStringEncoding"@,
        }
    }

    /// The cause's name.
    pub fn name(&self) -> (name: &'static str)
        ensures
            name@ == self.name_text(),
    {
        match self {
            Self::Unknown => "Unknown",
            Self::CreateOptions => "CreateOptions",
            Self::SetOptionsHardwareAccelerators => "SetOptionsHardwareAccelerators",
            Self::CreateCompiledModel => "CreateCompiledModel",
            Self::GetCompiledModelInputBufferRequirements => "GetCompiledModelInputBufferRequirements",
            Self::GetCompiledModelOutputBufferRequirements => "GetCompiledModelOutputBufferRequirements",
            Self::InputDoesntSupportAnyTensorBufferTypes => "InputDoesntSupportAnyTensorBufferTypes",
            Self::RunCompiledModel => "RunCompiledModel",
            Self::NotSupportedLiteRtAnyType => "NotSupportedLiteRtAnyType",
            Self::CreateEnvironment => "CreateEnvironment",
            Self::GetSignatureKey => "GetSignatureKey",
            Self::GetSignatureSubgraph => "GetSignatureSubgraph",
            Self::GetNumSignatureInputs => "GetNumSignatureInputs",
            Self::GetSignatureInputName => "GetSignatureInputName",
            Self::GetNumSignatureOutputs => "GetNumSignatureOutputs",
            Self::GetSignatureOutputName => "GetSignatureOutputName",
            Self::GetSignature => "GetSignature",
            Self::GetTensorTypeId => "GetTensorTypeId",
            Self::GetUnrankedTensorType => "GetUnrankedTensorType",
            Self::GetRankedTensorType => "GetRankedTensorType",
            Self::InvalidTensorTypeId => "InvalidTensorTypeId",
            Self::GetTensorName => "GetTensorName",
            Self::GetNumSubgraphInputs => "GetNumSubgraphInputs",
            Self::GetNumSubgraphOutputs => "GetNumSubgraphOutputs",
            Self::GetSubgraphInput => "GetSubgraphInput",
            Self::SubgraphInputTensorByNameNotFound => "SubgraphInputTensorByNameNotFound",
            Self::GetSubgraphOutput => "GetSubgraphOutput",
            Self::SubgraphOutputTensorByNameNotFound => "SubgraphOutputTensorByNameNotFound",
            Self::CreateModelFromFile => "CreateModelFromFile",
            Self::CreateModelFromBuffer => "CreateModelFromBuffer",
            Self::GetNumModelSubgraphs => "GetNumModelSubgraphs",
            Self::GetNumModelSignatures => "GetNumModelSignatures",
            Self::GetModelSignature => "GetModelSignature",
            Self::GetTensorBufferRequirementsBufferSize => "GetTensorBufferRequirementsBufferSize",
            Self::GetNumTensorBufferRequirementsSupportedBufferTypes => "GetNumTensorBufferRequirementsSupportedBufferTypes",
            Self::GetTensorBufferRequirementsSupportedTensorBufferType => "GetTensorBufferRequirementsSupportedTensorBufferType",
            Self::InvalidElementTypeEnumValue => "InvalidElementTypeEnumValue",
            Self::InvalidTensorBufferTypeEnumValue => "InvalidTensorBufferTypeEnumValue",
            Self::CreateManagedTensorBuffer => "CreateManagedTensorBuffer",
            Self::LockTensorBufferRead => "LockTensorBufferRead",
            Self::LockTensorBufferWrite => "LockTensorBufferWrite",
            Self::GetTensorBufferPackedSize => "GetTensorBufferPackedSize",
            Self::IncompatibleWriteType => "IncompatibleWriteType",
            Self::TensorBufferTooSmall => "TensorBufferTooSmall",
            Self::IncompatibleReadType => "IncompatibleReadType",
            Self::ReadBufferTooSmall => "ReadBufferTooSmall",
            Self::InvalidStringEncoding => "InvalidStringEncoding",
        }
    }
}

/// The text that stands for a status description that cannot be had.
pub open spec fn unknown_description() -> Seq<char> {
    "???"@
}

/// The description of a status, from what the engine's lookup handed back:
/// the text of the C string, or the placeholder where the lookup gave the
/// null pointer or bytes that are no UTF-8.
pub open spec fn description_text(looked_up: Option<Seq<u8>>) -> Seq<char> {
    match c_str_text(looked_up) {
        Ok(text) => text,
        Err(_) => unknown_description(),
    }
}

/// The character of a decimal digit.
pub open spec fn digit_char(digit: nat) -> char
    recommends
        digit < 10,
{
    if digit == 0 {
        '0'
    } else if digit == 1 {
        '1'
    } else if digit == 2 {
        '2'
    } else if digit == 3 {
        '3'
    } else if digit == 4 {
        '4'
    } else if digit == 5 {
        '5'
    } else if digit == 6 {
        '6'
    } else if digit == 7 {
        '7'
    } else if digit == 8 {
        '8'
    } else {
        '9'
    }
}

/// A number in decimal digits, without leading zeros.
pub open spec fn decimal(n: nat) -> Seq<char>
    decreases n,
{
    if n < 10 {
        seq![digit_char(n)]
    } else {
        decimal(n / 10).push(digit_char(n % 10))
    }
}

/// The text of one decimal digit.
fn digit_str(digit: u32) -> (text: &'static str)
    requires
        digit < 10,
    ensures
        text@ == seq![digit_char(digit as nat)],
{
    proof {
        reveal_strlit("0");
        reveal_strlit("1");
        reveal_strlit("2");
        reveal_strlit("3");
        reveal_strlit("4");
        reveal_strlit("5");
        reveal_strlit("6");
        reveal_strlit("7");
        reveal_strlit("8");
        reveal_strlit("9");
    }
    let text = match digit {
        0 => "0",
        1 => "1",
        2 => "2",
        3 => "3",
        4 => "4",
        5 => "5",
        6 => "6",
        7 => "7",
        8 => "8",
        _ => "9",
    };
    assert(text@ =~= seq![digit_char(digit as nat)]);
    text
}

/// Writes a number in decimal digits.
pub fn decimal_string(n: u32) -> (text: String)
    ensures
        text@ == decimal(n as nat),
    decreases n,
{
    if n < 10 {
        String::from_str(digit_str(n))
    } else {
        let mut text = decimal_string(n / 10);
        text.append(digit_str(n % 10));
        assert(text@ =~= decimal(n as nat));
        text
    }
}

impl Error {
    /// The error as one line of text: the cause, the status, and the
    /// description of the status between brackets.
    pub open spec fn rendered(self, looked_up: Option<Seq<u8>>) -> Seq<char> {
        "Error: "@ + self.cause.name_text() + " LiteRtStatus: "@ + decimal(
            self.litert_status as nat,
        ) + " ["@ + description_text(looked_up) + "] "@
    }

    /// Returns a string description of the status that came with the error.
    /// `looked_up` is what the engine's lookup of the status handed back: a
    /// C string, or the null pointer. A description that cannot be had is
    /// replaced by a placeholder.
    pub fn litert_status_description(&self, looked_up: &Option<Vec<u8>>) -> (text: String)
        ensures
            text@ == description_text(option_bytes(*looked_up)),
    {
        match c_str_to_str(looked_up) {
            Ok(description) => String::from_str(description),
            Err(_) => String::from_str("???"),
        }
    }

    /// Writes the error as one line of text, with the description of its
    /// status as [`Self::litert_status_description`] gives it.
    pub fn to_text(&self, looked_up: &Option<Vec<u8>>) -> (text: String)
        ensures
            text@ == self.rendered(option_bytes(*looked_up)),
    {
        let mut text = String::from_str("Error: ");
        text.append(self.cause.name());
        text.append(" LiteRtStatus: ");
        text.append(decimal_string(self.litert_status).as_str());
        text.append(" [");
        text.append(self.litert_status_description(looked_up).as_str());
        text.append("] ");
        text
    }
}

} // verus!
