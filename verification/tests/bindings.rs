use litert::bindings::LiteRtStatus_kLiteRtStatusErrorInvalidArgument;

#[test]
fn test_bindings_are_exported() {
    assert_eq!(LiteRtStatus_kLiteRtStatusErrorInvalidArgument, 1);
}
