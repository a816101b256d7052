use limited_str::{LengthExceeded, LimitedString};

#[test]
fn encoding_is_transparent() {
    let owned = LimitedString::<5>::from_string(String::from("abcde")).unwrap();
    let wire = serde_json::to_vec(owned.as_str()).unwrap();
    let plain = serde_json::to_vec("abcde").unwrap();
    assert_eq!(wire, plain);
}

#[test]
fn decoding_within_bound_succeeds() {
    let decoded: String = serde_json::from_str("\"abcde\"").unwrap();
    let owned = LimitedString::<5>::from_decoded(decoded).unwrap();
    assert_eq!(owned.as_str(), "abcde");
}

#[test]
fn decoding_over_bound_reports_length_and_bound() {
    let decoded: String = serde_json::from_str("\"abcdef\"").unwrap();
    let err = LimitedString::<5>::from_decoded(decoded).unwrap_err();
    assert_eq!(err, LengthExceeded { length: 6, bound: 5 });
}
