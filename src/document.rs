//! DID documents and the lookup of a verification method by role.

use crate::did::Did;
use crate::did_url::{clone_opt_string, DidUrl, DidUrlView, RelativeDidUrl};
use vstd::prelude::*;

verus! {

#[verifier::external_type_specification]
#[verifier::external_body]
pub struct ExJwk(jose_jwk::Jwk);

/// Relies on the `Clone` that `jose_jwk::Jwk` derives: the copy equals the value it was made from.
pub assume_specification[ <jose_jwk::Jwk as Clone>::clone ](j: &jose_jwk::Jwk) -> (r:
    jose_jwk::Jwk)
    ensures
        r == *j,
;

/// An inline verification method: a key and who controls it.
#[derive(Debug)]
pub struct VerificationMethodMap {
    pub id: DidUrl,
    pub controller: Did,
    pub typ: String,
    pub public_key_jwk: Option<jose_jwk::Jwk>,
    /// Multibase-encoded public key.
    pub public_key_multibase: Option<String>,
}

impl Clone for VerificationMethodMap {
    fn clone(&self) -> (r: VerificationMethodMap)
        ensures
            r == *self,
    {
        VerificationMethodMap {
            id: self.id.clone(),
            controller: self.controller.clone(),
            typ: self.typ.clone(),
            public_key_jwk: match &self.public_key_jwk {
                Some(j) => Some(j.clone()),
                None => None,
            },
            public_key_multibase: clone_opt_string(&self.public_key_multibase),
        }
    }
}

/// A verification method given inline, or a reference to one defined elsewhere.
#[derive(Debug)]
pub enum VerificationMethod {
    Inline(VerificationMethodMap),
    Url(DidUrl),
    RelativeUrl(RelativeDidUrl),
}

impl Clone for VerificationMethod {
    fn clone(&self) -> (r: VerificationMethod)
        ensures
            r == *self,
    {
        match self {
            VerificationMethod::Inline(m) => VerificationMethod::Inline(m.clone()),
            VerificationMethod::Url(u) => VerificationMethod::Url(u.clone()),
            VerificationMethod::RelativeUrl(u) => VerificationMethod::RelativeUrl(u.clone()),
        }
    }
}

/// A service of the DID subject.
#[derive(Debug, Clone)]
pub struct ServiceEndpoint {
    pub id: String,
    pub typ: Vec<String>,
}

/// The purposes a verification method can be listed for.
#[derive(Debug, Clone, Copy, PartialEq, Eq, Structural)]
pub enum VerificationRole {
    Assertion,
    Authentication,
    CapabilityDelegation,
    CapabilityInvocation,
    KeyAgreement,
}

/// What a DID resolves to: its keys, controllers and services.
#[derive(Debug)]
pub struct Document {
    pub id: Did,
    pub also_known_as: Option<Vec<String>>,
    pub controller: Option<Vec<Did>>,
    pub verification_method: Option<Vec<VerificationMethodMap>>,
    pub authentication: Option<Vec<VerificationMethod>>,
    pub assertion_method: Option<Vec<VerificationMethod>>,
    pub key_agreement: Option<Vec<VerificationMethod>>,
    pub capability_invocation: Option<Vec<VerificationMethod>>,
    pub capability_delegation: Option<Vec<VerificationMethod>>,
    pub service: Option<Vec<ServiceEndpoint>>,
}

/// The first inline method in `s` whose id is `url`.
pub open spec fn first_map_with_id(s: Seq<VerificationMethod>, url: DidUrlView) -> Option<
    VerificationMethodMap,
>
    decreases s.len(),
{
    if s.len() == 0 {
        None
    } else if s[0] is Inline && s[0]->Inline_0.id@ == url {
        Some(s[0]->Inline_0)
    } else {
        first_map_with_id(s.drop_first(), url)
    }
}

fn find_map(methods: &Vec<VerificationMethod>, url: &DidUrl) -> (r: Option<VerificationMethodMap>)
    ensures
        r == first_map_with_id(methods@, url@),
{
    let n = methods.len();
    let mut i: usize = 0;
    assert(methods@.subrange(0, n as int) =~= methods@);
    while i < n
        invariant
            n == methods@.len(),
            i <= n,
            first_map_with_id(methods@, url@) == first_map_with_id(
                methods@.subrange(i as int, n as int),
                url@,
            ),
        decreases n - i,
    {
        let ghost rest = methods@.subrange(i as int, n as int);
        assert(rest[0] == methods@[i as int]);
        assert(rest.drop_first() =~= methods@.subrange(i + 1, n as int));
        match &methods[i] {
            VerificationMethod::Inline(m) => {
                if m.id == *url {
                    return Some(m.clone());
                }
            },
            _ => {},
        }
        i = i + 1;
    }
    None
}

impl Document {
    /// The list of methods the document gives for `role`.
    pub open spec fn role_methods(&self, role: VerificationRole) -> Option<Vec<VerificationMethod>> {
        match role {
            VerificationRole::Assertion => self.assertion_method,
            VerificationRole::Authentication => self.authentication,
            VerificationRole::CapabilityDelegation => self.capability_delegation,
            VerificationRole::CapabilityInvocation => self.capability_invocation,
            VerificationRole::KeyAgreement => self.key_agreement,
        }
    }

    /// The first inline verification method listed for `role` whose id is
    /// `url`. References to methods defined elsewhere are passed over.
    pub fn find_verification_method(&self, url: &DidUrl, role: VerificationRole) -> (r: Option<
        VerificationMethodMap,
    >)
        ensures
            r == match self.role_methods(role) {
                Some(v) => first_map_with_id(v@, url@),
                None => None,
            },
    {
        let methods = match role {
            VerificationRole::Assertion => &self.assertion_method,
            VerificationRole::Authentication => &self.authentication,
            VerificationRole::CapabilityDelegation => &self.capability_delegation,
            VerificationRole::CapabilityInvocation => &self.capability_invocation,
            VerificationRole::KeyAgreement => &self.key_agreement,
        };
        match methods {
            Some(v) => find_map(v, url),
            None => None,
        }
    }
}

} // verus!
