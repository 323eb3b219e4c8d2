use xdid::did::{is_valid_idchar, Did, DidError, MethodId, MethodName};

#[test]
fn test_did_example() {
    let did = Did {
        method_name: MethodName("example".to_string()),
        method_id: MethodId("1234-5678-abcdef".to_string()),
    };

    let serialized = did.to_string();
    assert_eq!(serialized, "did:example:1234-5678-abcdef");

    let deserialized = Did::from_str(&serialized).expect("deserialize failed");
    assert_eq!(deserialized, did);
}

#[test]
fn method_name_rejects_uppercase() {
    assert_eq!(MethodName::from_str("Example"), Err(DidError::InvalidMethodName));
    let ok = MethodName::from_str("example2").expect("valid method name");
    assert_eq!(ok.0, "example2");
}

#[test]
fn method_name_rejects_empty() {
    assert_eq!(MethodName::from_str(""), Err(DidError::InvalidMethodName));
}

#[test]
fn method_id_allows_colons_and_percent() {
    let id = MethodId::from_str("localhost%3A4000:user:alice").expect("valid id");
    assert_eq!(id.0, "localhost%3A4000:user:alice");
    assert_eq!(MethodId::from_str("a/b"), Err(DidError::InvalidMethodId));
    assert_eq!(MethodId::from_str("").expect("empty id").0, "");
    assert!(MethodId::from_str("a%zz").is_ok());
    assert_eq!(MethodId::from_str("a?b"), Err(DidError::InvalidMethodId));
    assert_eq!(MethodId::from_str("a#b"), Err(DidError::InvalidMethodId));
}

#[test]
fn idchar_check() {
    assert!(is_valid_idchar("abc-DEF_1.2%"));
    assert!(is_valid_idchar(""));
    assert!(!is_valid_idchar("a:b"));
    assert!(!is_valid_idchar("a b"));
}

#[test]
fn did_parse_errors() {
    assert_eq!(Did::from_str("dad:example:1"), Err(DidError::InvalidScheme));
    assert_eq!(Did::from_str("example"), Err(DidError::InvalidScheme));
    assert_eq!(Did::from_str("did"), Err(DidError::MissingMethodName));
    assert_eq!(Did::from_str("did:example"), Err(DidError::MissingMethodId));
    assert_eq!(Did::from_str("did:Example:1"), Err(DidError::InvalidMethodName));
    assert_eq!(Did::from_str("did::1"), Err(DidError::InvalidMethodName));
    assert_eq!(Did::from_str("did:example:"), Err(DidError::InvalidMethodId));
    assert_eq!(Did::from_str("did:example:a b"), Err(DidError::InvalidMethodId));
}

#[test]
fn did_method_id_keeps_colons() {
    let did = Did::from_str("did:web:example.com:user:alice").expect("valid DID");
    assert_eq!(did.method_name.0, "web");
    assert_eq!(did.method_id.0, "example.com:user:alice");
    assert_eq!(did.to_string(), "did:web:example.com:user:alice");
}

#[test]
fn did_round_trip_values() {
    for text in ["did:key:z6Mkabc", "did:a1:b", "did:example:x:y:z%20"] {
        let did = Did::from_str(text).expect("valid DID");
        let again = Did::from_str(&did.to_string()).expect("valid DID");
        assert_eq!(again, did);
        assert_eq!(did.to_string(), text);
    }
}
