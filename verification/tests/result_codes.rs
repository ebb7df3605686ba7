use mpesa_dev::result_codes::decode;

#[test]
fn test_known_codes() {
    assert_eq!(decode(0), "Success");
    assert_eq!(decode(1032), "Request cancelled by user");
    assert_eq!(decode(1037), "DS timeout — user cannot be reached");
    assert_eq!(decode(1), "Insufficient funds");
}

#[test]
fn test_unknown_code() {
    assert_eq!(decode(9999), "Unknown result code");
    assert_eq!(decode(-1), "Unknown result code");
}
