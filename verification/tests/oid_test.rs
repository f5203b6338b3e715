use kanban_backend::oid::ObjectId;

#[test]
fn object_id_parses_24_hex_digits() {
    let id = ObjectId::parse_str("507f1f77bcf86cd799439011").unwrap();
    assert_eq!(id.hi, 0x507f1f77bcf86cd7);
    assert_eq!(id.lo, 0x99439011);
    assert_eq!(id.to_hex(), "507f1f77bcf86cd799439011");
}

#[test]
fn object_id_accepts_upper_case_and_writes_lower_case() {
    let id = ObjectId::parse_str("507F1F77BCF86CD799439011").unwrap();
    assert_eq!(id.to_hex(), "507f1f77bcf86cd799439011");
}

#[test]
fn object_id_refuses_bad_text() {
    assert!(ObjectId::parse_str("").is_err());
    assert!(ObjectId::parse_str("507f1f77bcf86cd79943901").is_err());
    assert!(ObjectId::parse_str("507f1f77bcf86cd79943901g").is_err());
    assert!(ObjectId::parse_str("507f1f77bcf86cd7994390111").is_err());
    let e = ObjectId::parse_str("zz").unwrap_err();
    assert!(!e.is_empty());
}

#[test]
fn object_id_parse_errors_name_the_fault() {
    assert_eq!(
        ObjectId::parse_str("zz").unwrap_err(),
        "invalid character 'z' was found at index 0 in the provided hex string: \"zz\""
    );
    assert_eq!(
        ObjectId::parse_str("507f1f77bcf86cd79943901g").unwrap_err(),
        "invalid character 'g' was found at index 23 in the provided hex string: \"507f1f77bcf86cd79943901g\""
    );
    assert_eq!(
        ObjectId::parse_str("507f1f77bcf86cd79943901").unwrap_err(),
        "provided hex string representation must be exactly 12 bytes, instead got: \"507f1f77bcf86cd79943901\", length 23"
    );
    assert_eq!(
        ObjectId::parse_str("abcd").unwrap_err(),
        "provided hex string representation must be exactly 12 bytes, instead got: \"abcd\", length 4"
    );
    assert_eq!(
        ObjectId::parse_str("\u{e9}\u{e9}").unwrap_err(),
        "invalid character '\u{c3}' was found at index 0 in the provided hex string: \"\u{e9}\u{e9}\""
    );
}

#[test]
fn object_id_round_trips_through_hex() {
    let id = ObjectId::new();
    let text = id.to_hex();
    assert_eq!(text.len(), 24);
    assert_eq!(ObjectId::parse_str(&text).unwrap(), id);
    let zero = ObjectId { hi: 0, lo: 0 };
    assert_eq!(zero.to_hex(), "000000000000000000000000");
    assert_eq!(ObjectId::parse_str(&zero.to_hex()).unwrap(), zero);
}
