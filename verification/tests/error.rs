use litert::bindings::{
    LiteRtStatus_kLiteRtStatusErrorInvalidArgument, LiteRtStatus_kLiteRtStatusErrorRuntimeFailure,
    LiteRtStatus_kLiteRtStatusOk, Reply,
};
use litert::error::{check_status, decimal_string};
use litert::{Error, ErrorCause};

#[test]
fn an_error_keeps_cause_and_status() {
    let error = Error::new(ErrorCause::RunCompiledModel, 7);
    assert_eq!(error.cause(), ErrorCause::RunCompiledModel);
    assert_eq!(error.litert_status(), 7);
    let copy = error;
    assert_eq!(copy, error);
    assert_ne!(error, Error::new(ErrorCause::RunCompiledModel, 8));
    assert_ne!(error, Error::new(ErrorCause::CreateOptions, 7));
}

#[test]
fn only_the_ok_status_is_a_success() {
    assert_eq!(check_status(LiteRtStatus_kLiteRtStatusOk, ErrorCause::CreateOptions), Ok(()));
    assert_eq!(
        check_status(LiteRtStatus_kLiteRtStatusErrorInvalidArgument, ErrorCause::CreateOptions),
        Err(Error::new(ErrorCause::CreateOptions, 1))
    );
    assert_eq!(
        check_status(1000, ErrorCause::GetModelSignature),
        Err(Error::new(ErrorCause::GetModelSignature, 1000))
    );
    assert_eq!(
        check_status(u32::MAX, ErrorCause::Unknown),
        Err(Error::new(ErrorCause::Unknown, u32::MAX))
    );
}

#[test]
fn a_reply_hands_out_its_value_only_after_a_success() {
    let good = Reply::new(LiteRtStatus_kLiteRtStatusOk, 42usize);
    assert_eq!(good.check(ErrorCause::GetNumModelSubgraphs), Ok(&42));
    let bad = Reply::new(LiteRtStatus_kLiteRtStatusErrorRuntimeFailure, 42usize);
    assert_eq!(
        bad.check(ErrorCause::GetNumModelSubgraphs),
        Err(Error::new(ErrorCause::GetNumModelSubgraphs, 3))
    );
}

#[test]
fn numbers_are_written_in_decimal() {
    assert_eq!(decimal_string(0), "0");
    assert_eq!(decimal_string(7), "7");
    assert_eq!(decimal_string(10), "10");
    assert_eq!(decimal_string(1000), "1000");
    assert_eq!(decimal_string(90210), "90210");
    assert_eq!(decimal_string(u32::MAX), "4294967295");
}

#[test]
fn cause_names_are_the_variant_names() {
    assert_eq!(ErrorCause::Unknown.name(), "Unknown");
    assert_eq!(ErrorCause::TensorBufferTooSmall.name(), "TensorBufferTooSmall");
    assert_eq!(
        ErrorCause::GetTensorBufferRequirementsSupportedTensorBufferType.name(),
        "GetTensorBufferRequirementsSupportedTensorBufferType"
    );
    assert_eq!(ErrorCause::InvalidStringEncoding.name(), "InvalidStringEncoding");
    assert_eq!(ErrorCause::NotSupportedLiteRtAnyType.name(), format!("{:?}", ErrorCause::NotSupportedLiteRtAnyType));
}

#[test]
fn the_status_description_is_the_text_that_was_looked_up() {
    let error = Error::new(ErrorCause::CreateModelFromFile, 500);
    let looked_up = Some("kLiteRtStatusErrorFileIO".as_bytes().to_vec());
    assert_eq!(error.litert_status_description(&looked_up), "kLiteRtStatusErrorFileIO");
}

#[test]
fn a_description_that_cannot_be_had_becomes_the_placeholder() {
    let error = Error::new(ErrorCause::CreateModelFromFile, 500);
    assert_eq!(error.litert_status_description(&None), "???");
    assert_eq!(error.litert_status_description(&Some(vec![0xc3, 0x28])), "???");
}

#[test]
fn an_error_is_written_as_one_line() {
    let error = Error::new(ErrorCause::CreateModelFromFile, 500);
    let looked_up = Some("kLiteRtStatusErrorFileIO".as_bytes().to_vec());
    assert_eq!(
        error.to_text(&looked_up),
        "Error: CreateModelFromFile LiteRtStatus: 500 [kLiteRtStatusErrorFileIO] "
    );
    assert_eq!(
        Error::new(ErrorCause::IncompatibleWriteType, 1).to_text(&None),
        "Error: IncompatibleWriteType LiteRtStatus: 1 [???] "
    );
}
