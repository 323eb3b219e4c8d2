//! Key pairs on the NIST curves, for deriving `did:key` identifiers.

use crate::keys::{p256_sec1_valid, p384_sec1_valid, p521_sec1_valid, KeyKind, PublicKey};
// ring names its key pair as this crate does; the alias keeps the two apart.
use ring::signature::Ed25519KeyPair as RingEd25519;
use vstd::prelude::*;

verus! {

/// Why a message could not be signed.
#[derive(Debug, Clone, Copy, PartialEq, Eq, Structural)]
pub enum SignError {
    SigningFailed,
}

/// Signs messages with a private key.
pub trait Signer {
    fn sign(&self, message: &[u8]) -> Result<Vec<u8>, SignError>;
}

/// `s` is the big-endian encoding of a valid P-256 secret scalar.
pub uninterp spec fn p256_scalar_valid(s: Seq<u8>) -> bool;

/// Relies on `p256::SecretKey::random` with the operating system's generator:
/// whatever it draws is a valid secret scalar.
#[verifier::external_body]
fn p256_random_secret() -> (r: Vec<u8>)
    ensures
        p256_scalar_valid(r@),
{
    p256::SecretKey::random(&mut rand::rngs::OsRng).to_bytes().to_vec()
}

/// Relies on `p256::SecretKey::from_slice`, which accepts every valid scalar,
/// and on the compressed SEC1 encoding of its public key, which
/// `p256::PublicKey::from_sec1_bytes` accepts.
#[verifier::external_body]
fn p256_public_bytes(secret: &Vec<u8>) -> (r: Vec<u8>)
    requires
        p256_scalar_valid(secret@),
    ensures
        p256_sec1_valid(r@),
{
    let key = p256::SecretKey::from_slice(secret).unwrap().public_key();
    p256::elliptic_curve::sec1::ToEncodedPoint::to_encoded_point(&key, true).as_bytes().to_vec()
}

/// Relies on `p256::ecdsa::SigningKey::try_sign`: an ECDSA signature of the
/// message over SHA-256, as the fixed-size bytes of `r` and `s`.
#[verifier::external_body]
fn p256_sign(secret: &Vec<u8>, message: &[u8]) -> (r: Option<Vec<u8>>)
    requires
        p256_scalar_valid(secret@),
    ensures
        r matches Some(sig) ==> sig@.len() == 64,
{
    let key = p256::ecdsa::SigningKey::from_slice(secret).unwrap();
    let sig: Result<p256::ecdsa::Signature, _> = p256::ecdsa::signature::Signer::try_sign(&key, message);
    match sig {
        Ok(sig) => Some(sig.to_vec()),
        Err(_) => None,
    }
}

/// A P-256 key pair.
pub struct P256KeyPair {
    secret: Vec<u8>,
}

impl P256KeyPair {
    #[verifier::type_invariant]
    spec fn inv(&self) -> bool {
        p256_scalar_valid(self.secret@)
    }

    /// A new key pair from the operating system's random numbers.
    pub fn generate() -> (r: P256KeyPair) {
        P256KeyPair { secret: p256_random_secret() }
    }

    /// The public key, as a compressed point.
    pub fn public(&self) -> (r: PublicKey)
        ensures
            r.kind == KeyKind::P256,
            r.wf(),
    {
        proof {
            use_type_invariant(self);
        }
        PublicKey { kind: KeyKind::P256, bytes: p256_public_bytes(&self.secret) }
    }
}

impl Signer for P256KeyPair {
    fn sign(&self, message: &[u8]) -> (r: Result<Vec<u8>, SignError>)
        ensures
            r matches Ok(sig) ==> sig@.len() == 64,
    {
        proof {
            use_type_invariant(self);
        }
        match p256_sign(&self.secret, message) {
            Some(sig) => Ok(sig),
            None => Err(SignError::SigningFailed),
        }
    }
}

/// `s` is the big-endian encoding of a valid P-384 secret scalar.
pub uninterp spec fn p384_scalar_valid(s: Seq<u8>) -> bool;

/// Relies on `p384::SecretKey::random` with the operating system's generator:
/// whatever it draws is a valid secret scalar.
#[verifier::external_body]
fn p384_random_secret() -> (r: Vec<u8>)
    ensures
        p384_scalar_valid(r@),
{
    p384::SecretKey::random(&mut rand::rngs::OsRng).to_bytes().to_vec()
}

/// Relies on `p384::SecretKey::from_slice`, which accepts every valid scalar,
/// and on the compressed SEC1 encoding of its public key, which
/// `p384::PublicKey::from_sec1_bytes` accepts.
#[verifier::external_body]
fn p384_public_bytes(secret: &Vec<u8>) -> (r: Vec<u8>)
    requires
        p384_scalar_valid(secret@),
    ensures
        p384_sec1_valid(r@),
{
    let key = p384::SecretKey::from_slice(secret).unwrap().public_key();
    p384::elliptic_curve::sec1::ToEncodedPoint::to_encoded_point(&key, true).as_bytes().to_vec()
}

/// Relies on `p384::ecdsa::SigningKey::try_sign`: an ECDSA signature of the
/// message over SHA-384, as the fixed-size bytes of `r` and `s`.
#[verifier::external_body]
fn p384_sign(secret: &Vec<u8>, message: &[u8]) -> (r: Option<Vec<u8>>)
    requires
        p384_scalar_valid(secret@),
    ensures
        r matches Some(sig) ==> sig@.len() == 96,
{
    let key = p384::ecdsa::SigningKey::from_slice(secret).unwrap();
    let sig: Result<p384::ecdsa::Signature, _> = p384::ecdsa::signature::Signer::try_sign(&key, message);
    match sig {
        Ok(sig) => Some(sig.to_vec()),
        Err(_) => None,
    }
}

/// A P-384 key pair.
pub struct P384KeyPair {
    secret: Vec<u8>,
}

impl P384KeyPair {
    #[verifier::type_invariant]
    spec fn inv(&self) -> bool {
        p384_scalar_valid(self.secret@)
    }

    /// A new key pair from the operating system's random numbers.
    pub fn generate() -> (r: P384KeyPair) {
        P384KeyPair { secret: p384_random_secret() }
    }

    /// The public key, as a compressed point.
    pub fn public(&self) -> (r: PublicKey)
        ensures
            r.kind == KeyKind::P384,
            r.wf(),
    {
        proof {
            use_type_invariant(self);
        }
        PublicKey { kind: KeyKind::P384, bytes: p384_public_bytes(&self.secret) }
    }
}

impl Signer for P384KeyPair {
    fn sign(&self, message: &[u8]) -> (r: Result<Vec<u8>, SignError>)
        ensures
            r matches Ok(sig) ==> sig@.len() == 96,
    {
        proof {
            use_type_invariant(self);
        }
        match p384_sign(&self.secret, message) {
            Some(sig) => Ok(sig),
            None => Err(SignError::SigningFailed),
        }
    }
}

/// `s` is the big-endian encoding of a valid P-521 secret scalar.
pub uninterp spec fn p521_scalar_valid(s: Seq<u8>) -> bool;

/// Relies on `p521::SecretKey::random` with the operating system's generator:
/// whatever it draws is a valid secret scalar.
#[verifier::external_body]
fn p521_random_secret() -> (r: Vec<u8>)
    ensures
        p521_scalar_valid(r@),
{
    p521::SecretKey::random(&mut rand::rngs::OsRng).to_bytes().to_vec()
}

/// Relies on `p521::SecretKey::from_slice`, which accepts every valid scalar,
/// and on the compressed SEC1 encoding of its public key, which
/// `p521::PublicKey::from_sec1_bytes` accepts.
#[verifier::external_body]
fn p521_public_bytes(secret: &Vec<u8>) -> (r: Vec<u8>)
    requires
        p521_scalar_valid(secret@),
    ensures
        p521_sec1_valid(r@),
{
    let key = p521::SecretKey::from_slice(secret).unwrap().public_key();
    p521::elliptic_curve::sec1::ToEncodedPoint::to_encoded_point(&key, true).as_bytes().to_vec()
}

/// Relies on `p521::ecdsa::SigningKey::try_sign`: an ECDSA signature of the
/// message over SHA-512, as the fixed-size bytes of `r` and `s`.
#[verifier::external_body]
fn p521_sign(secret: &Vec<u8>, message: &[u8]) -> (r: Option<Vec<u8>>)
    requires
        p521_scalar_valid(secret@),
    ensures
        r matches Some(sig) ==> sig@.len() == 132,
{
    let key = p521::ecdsa::SigningKey::from_slice(secret).unwrap();
    let sig: Result<p521::ecdsa::Signature, _> = p521::ecdsa::signature::Signer::try_sign(&key, message);
    match sig {
        Ok(sig) => Some(sig.to_vec()),
        Err(_) => None,
    }
}

/// A P-521 key pair.
pub struct P521KeyPair {
    secret: Vec<u8>,
}

impl P521KeyPair {
    #[verifier::type_invariant]
    spec fn inv(&self) -> bool {
        p521_scalar_valid(self.secret@)
    }

    /// A new key pair from the operating system's random numbers.
    pub fn generate() -> (r: P521KeyPair) {
        P521KeyPair { secret: p521_random_secret() }
    }

    /// The public key, as a compressed point.
    pub fn public(&self) -> (r: PublicKey)
        ensures
            r.kind == KeyKind::P521,
            r.wf(),
    {
        proof {
            use_type_invariant(self);
        }
        PublicKey { kind: KeyKind::P521, bytes: p521_public_bytes(&self.secret) }
    }
}

impl Signer for P521KeyPair {
    fn sign(&self, message: &[u8]) -> (r: Result<Vec<u8>, SignError>)
        ensures
            r matches Ok(sig) ==> sig@.len() == 132,
    {
        proof {
            use_type_invariant(self);
        }
        match p521_sign(&self.secret, message) {
            Some(sig) => Ok(sig),
            None => Err(SignError::SigningFailed),
        }
    }
}

#[verifier::external_type_specification]
#[verifier::external_body]
pub struct ExEd25519KeyPair(RingEd25519);

/// Relies on `ring::signature::Ed25519KeyPair::generate_pkcs8` with the
/// system's generator, and on `from_pkcs8` reading back the document it wrote.
#[verifier::external_body]
fn ed25519_generate() -> (r: RingEd25519) {
    let rng = ring::rand::SystemRandom::new();
    let document = RingEd25519::generate_pkcs8(&rng).unwrap();
    RingEd25519::from_pkcs8(document.as_ref()).unwrap()
}

/// Relies on `ring::signature::KeyPair::public_key` of an Ed25519 pair:
/// the 32-byte public key.
#[verifier::external_body]
fn ed25519_public_bytes(pair: &RingEd25519) -> (r: Vec<u8>)
    ensures
        r@.len() == 32,
{
    ring::signature::KeyPair::public_key(pair).as_ref().to_vec()
}

/// Relies on `ring::signature::Ed25519KeyPair::sign`: the 64-byte signature.
#[verifier::external_body]
fn ed25519_sign(pair: &RingEd25519, message: &[u8]) -> (r: Vec<u8>)
    ensures
        r@.len() == 64,
{
    pair.sign(message).as_ref().to_vec()
}

/// An Ed25519 key pair.
pub struct Ed25519KeyPair {
    pair: RingEd25519,
}

impl Ed25519KeyPair {
    /// A new key pair from the system's random numbers.
    pub fn generate() -> (r: Ed25519KeyPair) {
        Ed25519KeyPair { pair: ed25519_generate() }
    }

    /// The 32-byte public key.
    pub fn public(&self) -> (r: PublicKey)
        ensures
            r.kind == KeyKind::Ed25519,
            r.wf(),
    {
        PublicKey { kind: KeyKind::Ed25519, bytes: ed25519_public_bytes(&self.pair) }
    }
}

impl Signer for Ed25519KeyPair {
    fn sign(&self, message: &[u8]) -> (r: Result<Vec<u8>, SignError>)
        ensures
            r is Ok,
            r matches Ok(sig) ==> sig@.len() == 64,
    {
        Ok(ed25519_sign(&self.pair, message))
    }
}

} // verus!
