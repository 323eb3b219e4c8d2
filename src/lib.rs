//! Decentralized identifiers: the DID and DID URL grammar, DID documents,
//! method dispatch, and the key-embedded `did:key` method.

pub mod uri;

pub mod did;
pub mod did_url;
pub mod document;
pub mod keys;
pub mod keypairs;
pub mod did_key;
pub mod did_web;
pub mod resolver;

use vstd::prelude::*;

verus! {

/// A DID method; a resolver dispatches a DID to the method whose name is
/// the DID's method name.
pub trait Method {
    fn method_name(&self) -> &'static str;
}

/// Why a DID could not be resolved.
#[derive(Debug)]
pub enum ResolutionError {
    /// No registered method has the DID's method name.
    UnsupportedMethod,
    /// The DID is malformed, or its method cannot decode its method-specific id.
    InvalidDid,
    /// The method could not fetch or read the document; the cause in words.
    ResolutionFailed(String),
}

} // verus!
