use litert::bindings::LiteRtStatus_kLiteRtStatusErrorRuntimeFailure;
use litert::helper_funs::{c_str_to_str, holds_nul, str_eq};
use litert::{Error, ErrorCause};

#[test]
fn test_nullptr_to_str() {
    let result = c_str_to_str(&None);
    assert_eq!(
        result,
        Err(Error::new(
            ErrorCause::InvalidStringEncoding,
            LiteRtStatus_kLiteRtStatusErrorRuntimeFailure
        ))
    );
}

#[test]
fn c_string_bytes_are_read_as_text() {
    let bytes = Some("serving_default".as_bytes().to_vec());
    assert_eq!(c_str_to_str(&bytes), Ok("serving_default"));
}

#[test]
fn empty_c_string_is_the_empty_text() {
    assert_eq!(c_str_to_str(&Some(Vec::new())), Ok(""));
}

#[test]
fn text_beyond_ascii_is_read() {
    let bytes = Some("größe_入力".as_bytes().to_vec());
    assert_eq!(c_str_to_str(&bytes), Ok("größe_入力"));
}

#[test]
fn bytes_that_are_no_utf8_are_refused() {
    let expected =
        Err(Error::new(ErrorCause::InvalidStringEncoding, LiteRtStatus_kLiteRtStatusErrorRuntimeFailure));
    assert_eq!(c_str_to_str(&Some(vec![0x66, 0x6f, 0xff])), expected);
    // A continuation byte without its leading byte.
    assert_eq!(c_str_to_str(&Some(vec![0x80])), expected);
    // A sequence that is cut short.
    assert_eq!(c_str_to_str(&Some(vec![0xe5, 0x85])), expected);
}

#[test]
fn the_error_for_a_bad_string_has_its_own_cause() {
    let error = c_str_to_str(&None).unwrap_err();
    assert_eq!(error.cause(), ErrorCause::InvalidStringEncoding);
    assert_eq!(error.litert_status(), 3);
}

#[test]
fn str_eq_compares_the_whole_text() {
    assert!(str_eq("input_0", "input_0"));
    assert!(str_eq("", ""));
    assert!(!str_eq("input_0", "input_1"));
    assert!(!str_eq("input", "input_0"));
    assert!(!str_eq("input_0", "input"));
    assert!(!str_eq("", "a"));
    assert!(str_eq("größe", "größe"));
    assert!(!str_eq("größe", "grösse"));
}

#[test]
fn a_nul_is_found_wherever_it_stands() {
    assert!(!holds_nul(""));
    assert!(!holds_nul("/tmp/plugin"));
    assert!(holds_nul("\0"));
    assert!(holds_nul("/tmp\0/plugin"));
    assert!(holds_nul("/tmp/plugin\0"));
}
