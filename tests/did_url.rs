use xdid::did::{Did, DidError};
use xdid::did_url::{DidUrl, RelativeDidUrl, RelativeDidUrlPath, UrlError};

#[test]
fn test_did_url_full() {
    let did_url = DidUrl {
        did: Did::from_str("did:example:123").unwrap(),
        path_abempty: Some("/path/to/resource".to_string()),
        query: Some("key=value".into()),
        fragment: Some("section".into()),
    };

    let serialized = did_url.to_string();
    assert_eq!(serialized, "did:example:123/path/to/resource?key=value#section");

    let deserialized = DidUrl::from_str(&serialized).expect("deserialize failed");
    assert_eq!(deserialized, did_url);
}

#[test]
fn test_did_url_no_path() {
    let did_url = DidUrl {
        did: Did::from_str("did:example:123").unwrap(),
        path_abempty: None,
        query: Some("key=value".into()),
        fragment: Some("section".into()),
    };

    let serialized = did_url.to_string();
    assert_eq!(serialized, "did:example:123?key=value#section");

    let deserialized = DidUrl::from_str(&serialized).expect("deserialize failed");
    assert_eq!(deserialized, did_url);
}

#[test]
fn test_did_url_no_query() {
    let did_url = DidUrl {
        did: Did::from_str("did:example:123").unwrap(),
        path_abempty: Some("/path/to/resource".to_string()),
        query: None,
        fragment: Some("section".into()),
    };

    let serialized = did_url.to_string();
    assert_eq!(serialized, "did:example:123/path/to/resource#section");

    let deserialized = DidUrl::from_str(&serialized).expect("deserialize failed");
    assert_eq!(deserialized, did_url);
}

#[test]
fn test_did_url_no_fragment() {
    let did_url = DidUrl {
        did: Did::from_str("did:example:123").unwrap(),
        path_abempty: Some("/path/to/resource".to_string()),
        query: Some("key=value".into()),
        fragment: None,
    };

    let serialized = did_url.to_string();
    assert_eq!(serialized, "did:example:123/path/to/resource?key=value");

    let deserialized = DidUrl::from_str(&serialized).expect("deserialize failed");
    assert_eq!(deserialized, did_url);
}

#[test]
fn test_did_url_none() {
    let did_url = DidUrl {
        did: Did::from_str("did:example:123").unwrap(),
        path_abempty: None,
        query: None,
        fragment: None,
    };

    let serialized = did_url.to_string();
    assert_eq!(serialized, "did:example:123");

    let deserialized = DidUrl::from_str(&serialized).expect("deserialize failed");
    assert_eq!(deserialized, did_url);
}

#[test]
fn test_full() {
    let did_url = DidUrl {
        did: Did::from_str("did:example:123").expect("valid DID"),
        path_abempty: Some("/path/to/resource".to_string()),
        query: Some("key=value".into()),
        fragment: Some("section".into()),
    };

    let serialized = did_url.to_string();
    assert_eq!(serialized, "did:example:123/path/to/resource?key=value#section");

    let deserialized = DidUrl::from_str(&serialized).expect("deserialize failed");
    assert_eq!(deserialized, did_url);
}

#[test]
fn test_no_path() {
    let did_url = DidUrl {
        did: Did::from_str("did:example:123").expect("valid DID"),
        path_abempty: None,
        query: Some("key=value".into()),
        fragment: Some("section".into()),
    };

    let serialized = did_url.to_string();
    assert_eq!(serialized, "did:example:123?key=value#section");

    let deserialized = DidUrl::from_str(&serialized).expect("deserialize failed");
    assert_eq!(deserialized, did_url);
}

#[test]
fn test_no_query() {
    let did_url = DidUrl {
        did: Did::from_str("did:example:123").expect("valid DID"),
        path_abempty: Some("/path/to/resource".to_string()),
        query: None,
        fragment: Some("section".into()),
    };

    let serialized = did_url.to_string();
    assert_eq!(serialized, "did:example:123/path/to/resource#section");

    let deserialized = DidUrl::from_str(&serialized).expect("deserialize failed");
    assert_eq!(deserialized, did_url);
}

#[test]
fn test_no_fragment() {
    let did_url = DidUrl {
        did: Did::from_str("did:example:123").expect("valid DID"),
        path_abempty: Some("/path/to/resource".to_string()),
        query: Some("key=value".into()),
        fragment: None,
    };

    let serialized = did_url.to_string();
    assert_eq!(serialized, "did:example:123/path/to/resource?key=value");

    let deserialized = DidUrl::from_str(&serialized).expect("deserialize failed");
    assert_eq!(deserialized, did_url);
}

#[test]
fn test_did_plain() {
    let did_url = DidUrl {
        did: Did::from_str("did:example:123").expect("valid DID"),
        path_abempty: None,
        query: None,
        fragment: None,
    };

    let serialized = did_url.to_string();
    assert_eq!(serialized, "did:example:123");

    let deserialized = DidUrl::from_str(&serialized).expect("deserialize failed");
    assert_eq!(deserialized, did_url);
}

#[test]
fn test_compound_query() {
    let did_url = DidUrl {
        did: Did::from_str("did:example:123").expect("valid DID"),
        path_abempty: None,
        query: Some("a=1&b=2".into()),
        fragment: None,
    };

    let serialized = did_url.to_string();
    assert_eq!(serialized, "did:example:123?a=1&b=2");

    let deserialized = DidUrl::from_str(&serialized).expect("deserialize failed");
    assert_eq!(deserialized, did_url);
}

#[test]
fn test_dwn_ref() {
    let did_url = DidUrl {
        did: Did::from_str("did:example:123").expect("valid DID"),
        path_abempty: None,
        query: Some("service=dwn&relativeRef=/records/abc123".into()),
        fragment: None,
    };

    let serialized = did_url.to_string();
    assert_eq!(serialized, "did:example:123?service=dwn&relativeRef=/records/abc123");

    let deserialized = DidUrl::from_str(&serialized).expect("deserialize failed");
    assert_eq!(deserialized, did_url);
}

#[test]
fn did_url_parts() {
    let url = DidUrl::from_str("did:example:123/path/to/resource?key=value#section").expect("valid");
    assert_eq!(url.did.to_string(), "did:example:123");
    assert_eq!(url.did.method_id.0, "123");
    assert_eq!(url.path_abempty.as_deref(), Some("/path/to/resource"));
    assert_eq!(url.query.as_deref(), Some("key=value"));
    assert_eq!(url.fragment.as_deref(), Some("section"));
}

#[test]
fn did_url_query_keeps_slashes() {
    let url = DidUrl::from_str("did:example:123?service=dwn&relativeRef=/records/abc123").expect("valid");
    assert_eq!(url.path_abempty, None);
    assert_eq!(url.query.as_deref(), Some("service=dwn&relativeRef=/records/abc123"));
    assert_eq!(url.fragment, None);
}

#[test]
fn did_url_fragment_takes_rest() {
    let url = DidUrl::from_str("did:example:123#a?b#c").expect("valid");
    assert_eq!(url.query, None);
    assert_eq!(url.fragment.as_deref(), Some("a?b#c"));
    assert_eq!(url.to_string(), "did:example:123#a?b#c");
}

#[test]
fn did_url_errors() {
    assert_eq!(DidUrl::from_str("didx:example:1/a"), Err(UrlError::Did(DidError::InvalidScheme)));
    assert_eq!(DidUrl::from_str("did:example/a"), Err(UrlError::Did(DidError::MissingMethodId)));
    assert_eq!(DidUrl::from_str("did:example:1/a b"), Err(UrlError::InvalidSegment));
    assert_eq!(DidUrl::from_str("did:example:1/a%2"), Err(UrlError::InvalidSegment));
    assert!(DidUrl::from_str("did:example:1/a%2F/b").is_ok());
}

#[test]
fn relative_path_double_slash_rejected() {
    assert_eq!(RelativeDidUrlPath::from_str("//x"), Err(UrlError::DoubleSlash));
}

#[test]
fn relative_path_colon_in_first_segment() {
    assert_eq!(RelativeDidUrlPath::from_str("a:b"), Err(UrlError::InvalidSegment));
    assert_eq!(
        RelativeDidUrlPath::from_str("/a:b"),
        Ok(RelativeDidUrlPath::Absolute("/a:b".to_string()))
    );
    assert_eq!(
        RelativeDidUrlPath::from_str("a/b:c"),
        Ok(RelativeDidUrlPath::NoScheme("a/b:c".to_string()))
    );
    assert_eq!(RelativeDidUrlPath::from_str(""), Ok(RelativeDidUrlPath::Empty));
    assert_eq!(RelativeDidUrlPath::from_str("/"), Ok(RelativeDidUrlPath::Absolute("/".to_string())));
}

#[test]
fn relative_did_url_round_trip() {
    let rel = RelativeDidUrl::from_str("/keys/1?v=2#owner").expect("valid");
    assert_eq!(rel.path, RelativeDidUrlPath::Absolute("/keys/1".to_string()));
    assert_eq!(rel.query.as_deref(), Some("v=2"));
    assert_eq!(rel.fragment.as_deref(), Some("owner"));
    assert_eq!(rel.to_string(), "/keys/1?v=2#owner");

    let frag = RelativeDidUrl::from_str("#owner").expect("valid");
    assert_eq!(frag.path, RelativeDidUrlPath::Empty);
    assert_eq!(frag.to_string(), "#owner");
}

#[test]
fn to_relative_projection() {
    let url = DidUrl::from_str("did:example:123/a/b?q#f").expect("valid");
    let rel = url.to_relative().expect("relative form");
    assert_eq!(rel.path, RelativeDidUrlPath::Absolute("/a/b".to_string()));
    assert_eq!(rel.query.as_deref(), Some("q"));
    assert_eq!(rel.fragment.as_deref(), Some("f"));

    let bare = DidUrl::from_str("did:example:123#f").expect("valid");
    assert_eq!(bare.to_relative().expect("relative form").path, RelativeDidUrlPath::Empty);

    let double = DidUrl::from_str("did:example:123//x").expect("valid");
    assert!(double.to_relative().is_none());
}
