use xdid::did::Did;
use xdid::did_key::{DidKey, DidKeyParser, MethodDidKey, ParseError};
use xdid::keypairs::{Ed25519KeyPair, P256KeyPair, P384KeyPair, P521KeyPair, Signer};
use xdid::keys::{KeyKind, PublicKey};

#[test]
fn p256_test_display() {
    let pair = P256KeyPair::generate();
    let did = pair.public().to_did();

    let did_str = did.to_string();
    println!("{}", did_str);
    assert!(did_str.starts_with("did:key:zDn"));
}

#[test]
fn p256_test_jwk() {
    let pair = P256KeyPair::generate();
    let _ = pair.public().to_jwk();
}

#[test]
fn p256_test_parse() {
    let pair = P256KeyPair::generate();
    let did = pair.public().to_did();

    let parser = DidKeyParser::default();
    let _ = parser.parse(&did).unwrap();
}

#[test]
fn p384_test_display() {
    let pair = P384KeyPair::generate();
    let did = pair.public().to_did();

    let did_str = did.to_string();
    println!("{}", did_str);
    assert!(did_str.starts_with("did:key:z82"));
}

#[test]
fn p384_test_jwk() {
    let pair = P384KeyPair::generate();
    let _ = pair.public().to_jwk();
}

#[test]
fn p384_test_parse() {
    let pair = P384KeyPair::generate();
    let did = pair.public().to_did();

    let parser = DidKeyParser::default();
    let _ = parser.parse(&did).unwrap();
}

#[test]
fn p521_test_display() {
    let pair = P521KeyPair::generate();
    let did = pair.public().to_did();

    let did_str = did.to_string();
    println!("{}", did_str);
    assert!(did_str.starts_with("did:key:z2J9"));
}

#[test]
fn p521_test_jwk() {
    let pair = P521KeyPair::generate();
    let _ = pair.public().to_jwk();
}

#[test]
fn p521_test_parse() {
    let pair = P521KeyPair::generate();
    let did = pair.public().to_did();

    let parser = DidKeyParser::default();
    let _ = parser.parse(&did).unwrap();
}

#[test]
fn multicodec_codes() {
    assert_eq!(KeyKind::Ed25519.code_u64(), 0xed);
    assert_eq!(KeyKind::P256.code_u64(), 0x1200);
    assert_eq!(KeyKind::P384.code_u64(), 0x1201);
    assert_eq!(KeyKind::P521.code_u64(), 0x1202);
    assert_eq!(KeyKind::Ed25519.code(), vec![0xed, 0x01]);
    assert_eq!(KeyKind::P256.code(), vec![0x80, 0x24]);
    assert_eq!(KeyKind::P384.code(), vec![0x81, 0x24]);
    assert_eq!(KeyKind::P521.code(), vec![0x82, 0x24]);
}

#[test]
fn ed25519_did_and_parse() {
    let key = PublicKey { kind: KeyKind::Ed25519, bytes: vec![7u8; 32] };
    let did = DidKey::new(key).to_did();
    let text = did.to_string();
    assert!(text.starts_with("did:key:z6Mk"));
    let parsed = DidKeyParser::default().parse(&did).expect("valid key");
    assert_eq!(parsed.kind, KeyKind::Ed25519);
    assert_eq!(parsed.bytes, vec![7u8; 32]);
    assert!(parsed.to_jwk().is_some());
}

#[test]
fn derivation_is_deterministic_and_injective() {
    let a = PublicKey { kind: KeyKind::Ed25519, bytes: vec![1u8; 32] };
    let b = PublicKey { kind: KeyKind::Ed25519, bytes: vec![2u8; 32] };
    assert_eq!(a.to_did(), a.to_did());
    assert_ne!(a.to_did(), b.to_did());
}

#[test]
fn parse_errors() {
    let parser = DidKeyParser::default();
    let short = PublicKey { kind: KeyKind::Ed25519, bytes: vec![1u8; 31] }.to_did();
    assert!(matches!(parser.parse(&short), Err(ParseError::InvalidPublicKey)));

    let bad_point = PublicKey { kind: KeyKind::P256, bytes: vec![0x02u8; 10] }.to_did();
    assert!(matches!(parser.parse(&bad_point), Err(ParseError::InvalidPublicKey)));

    let unknown = Did::from_str("did:key:z1111").expect("valid DID");
    assert!(matches!(parser.parse(&unknown), Err(ParseError::CodecNotSupported)));

    let not_multibase = Did::from_str("did:key:!abc").err();
    assert!(not_multibase.is_some());
    let bad_base_code = Did::from_str("did:key:Wabc").expect("valid DID");
    assert!(matches!(parser.parse(&bad_base_code), Err(ParseError::Decode(_))));

    let base32 = Did::from_str("did:key:baa").expect("valid DID");
    assert!(matches!(parser.parse(&base32), Err(ParseError::UnexpectedBase('b'))));
}

#[test]
fn ed25519_test_display() {
    let pair = Ed25519KeyPair::generate();
    let did = pair.public().to_did();
    let did_str = did.to_string();
    println!("{}", did_str);
    assert!(did_str.starts_with("did:key:z6Mk"));
}

#[test]
fn signatures_have_fixed_sizes() {
    let message = b"hello";
    assert_eq!(Ed25519KeyPair::generate().sign(message).unwrap().len(), 64);
    assert_eq!(P256KeyPair::generate().sign(message).unwrap().len(), 64);
    assert_eq!(P384KeyPair::generate().sign(message).unwrap().len(), 96);
    assert_eq!(P521KeyPair::generate().sign(message).unwrap().len(), 132);
}

#[test]
fn ed25519_key_resolves() {
    let did = Ed25519KeyPair::generate().public().to_did();
    let doc = MethodDidKey.resolve(did.clone()).expect("resolves");
    assert_eq!(doc.id, did);
}

#[test]
fn resolved_document_holds_the_key_jwk() {
    for key in [P256KeyPair::generate().public(), P384KeyPair::generate().public(), P521KeyPair::generate().public()] {
        let jwk = key.to_jwk().expect("valid key");
        let did = key.to_did();
        let doc = MethodDidKey.resolve(did.clone()).expect("resolves");
        let methods = doc.verification_method.expect("one method");
        assert_eq!(methods[0].public_key_jwk, Some(jwk));
        assert_eq!(methods[0].id.fragment.as_deref(), Some(did.method_id.0.as_str()));
    }
}
