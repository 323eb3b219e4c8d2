use xdid::did::{Did, MethodId, MethodName};
use xdid::did_key::MethodDidKey;
use xdid::Method;
use xdid::did_url::DidUrl;
use xdid::did_web::document_url;
use xdid::document::{Document, VerificationMethod, VerificationMethodMap, VerificationRole};
use xdid::keypairs::P256KeyPair;
use xdid::resolver::DidResolver;
use xdid::ResolutionError;

#[test]
fn test_resolve_did_key() {
    let did = P256KeyPair::generate().public().to_did();
    let resolver = DidResolver::default();
    let index = resolver.resolve(&did).unwrap();
    assert_eq!(resolver.methods[index], MethodDidKey.method_name());
    let document = MethodDidKey.resolve(did.clone()).unwrap();
    assert_eq!(document.id, did);
}

#[test]
fn resolved_key_document_shape() {
    let did = P256KeyPair::generate().public().to_did();
    let doc = MethodDidKey.resolve(did.clone()).expect("resolves");
    assert_eq!(doc.id, did);
    let methods = doc.verification_method.as_ref().expect("one method");
    assert_eq!(methods.len(), 1);
    let m = &methods[0];
    assert_eq!(m.id.fragment.as_deref(), Some(did.method_id.0.as_str()));
    assert_eq!(m.typ, "JsonWebKey2020");
    assert!(m.public_key_jwk.is_some());
    assert!(doc.key_agreement.is_none());
    for role in [
        VerificationRole::Authentication,
        VerificationRole::Assertion,
        VerificationRole::CapabilityInvocation,
        VerificationRole::CapabilityDelegation,
    ] {
        assert!(doc.find_verification_method(&m.id, role).is_none());
    }
    match &doc.authentication.as_ref().unwrap()[0] {
        VerificationMethod::Url(u) => assert_eq!(*u, m.id),
        _ => panic!("expected a reference"),
    }
}

#[test]
fn resolve_rejects_bad_key() {
    let did = Did::from_str("did:key:z1111").expect("valid DID");
    assert!(matches!(MethodDidKey.resolve(did), Err(ResolutionError::InvalidDid)));
}

#[test]
fn empty_resolver_is_unsupported() {
    let resolver = DidResolver { methods: Vec::new() };
    let did = Did::from_str("did:key:z6Mk").expect("valid DID");
    assert!(matches!(resolver.resolve(&did), Err(ResolutionError::UnsupportedMethod)));
}

#[test]
fn dispatch_first_match_wins() {
    let resolver = DidResolver {
        methods: vec!["web".to_string(), "key".to_string(), "key".to_string()],
    };
    let did = Did::from_str("did:key:z6Mk").expect("valid DID");
    assert_eq!(resolver.resolve(&did).unwrap(), 1);
    let other = Did::from_str("did:Key:z6Mk").err();
    assert!(other.is_some());
    let unknown = Did::from_str("did:ion:abc").expect("valid DID");
    assert!(matches!(resolver.resolve(&unknown), Err(ResolutionError::UnsupportedMethod)));
}

fn sample_map(did: &Did, fragment: &str) -> VerificationMethodMap {
    VerificationMethodMap {
        id: DidUrl {
            did: did.clone(),
            path_abempty: None,
            query: None,
            fragment: Some(fragment.to_string()),
        },
        controller: did.clone(),
        typ: "JsonWebKey2020".into(),
        public_key_jwk: None,
        public_key_multibase: Some("z123".to_string()),
    }
}

#[test]
fn find_verification_method_by_role() {
    let did = Did {
        method_name: MethodName("web".into()),
        method_id: MethodId("localhost%3A4000".to_string()),
    };
    let first = sample_map(&did, "owner");
    let second = sample_map(&did, "other");
    let doc = Document {
        id: did.clone(),
        also_known_as: None,
        controller: None,
        verification_method: None,
        authentication: Some(vec![
            VerificationMethod::Url(first.id.clone()),
            VerificationMethod::Inline(second.clone()),
            VerificationMethod::Inline(first.clone()),
        ]),
        assertion_method: None,
        key_agreement: Some(vec![]),
        capability_invocation: None,
        capability_delegation: None,
        service: None,
    };
    let found = doc
        .find_verification_method(&first.id, VerificationRole::Authentication)
        .expect("found");
    assert_eq!(found.id, first.id);
    assert_eq!(found.public_key_multibase.as_deref(), Some("z123"));
    assert!(doc.find_verification_method(&first.id, VerificationRole::Assertion).is_none());
    assert!(doc.find_verification_method(&first.id, VerificationRole::KeyAgreement).is_none());
    let with_query = DidUrl::from_str("did:web:localhost%3A4000?x#owner").expect("valid");
    assert!(doc
        .find_verification_method(&with_query, VerificationRole::Authentication)
        .is_none());
}

#[test]
fn web_document_urls() {
    let bare = Did::from_str("did:web:example.com").expect("valid DID");
    assert_eq!(document_url(&bare), "https://example.com/.well-known/did.json");
    let with_port = Did::from_str("did:web:localhost%3A4000:user:alice").expect("valid DID");
    assert_eq!(document_url(&with_port), "https://localhost:4000/user/alice/did.json");
}
