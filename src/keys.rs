//! Public keys of the kinds that `did:key` embeds, and their multicodec tags.

use vstd::prelude::*;

verus! {

/// The unsigned LEB128 encoding of `n`: seven bits per byte, low group
/// first, the high bit set on every byte but the last.
pub open spec fn varint(n: nat) -> Seq<u8>
    decreases n,
{
    if n < 128 {
        seq![n as u8]
    } else {
        seq![(n % 128 + 128) as u8] + varint(n / 128)
    }
}

/// Relies on `unsigned_varint::encode::u64`: it writes the LEB128 bytes of
/// `n` into the buffer and returns the part written.
#[verifier::external_body]
fn encode_varint(n: u64) -> (r: Vec<u8>)
    ensures
        r@ == varint(n as nat),
{
    let mut buf = unsigned_varint::encode::u64_buffer();
    unsigned_varint::encode::u64(n, &mut buf).to_vec()
}

/// The kinds of public key that a `did:key` identifier can carry.
#[derive(Clone, Copy, Debug, PartialEq, Eq, Structural)]
pub enum KeyKind {
    Ed25519,
    P256,
    P384,
    P521,
}

/// The multicodec code of each kind of public key.
pub open spec fn codec_code(kind: KeyKind) -> u64 {
    match kind {
        KeyKind::Ed25519 => 0xed,
        KeyKind::P256 => 0x1200,
        KeyKind::P384 => 0x1201,
        KeyKind::P521 => 0x1202,
    }
}

/// The multicodec prefix of each kind: its code as a varint.
pub open spec fn codec_prefix(kind: KeyKind) -> Seq<u8> {
    varint(codec_code(kind) as nat)
}

/// `b` is a SEC1 encoding (compressed, uncompressed or compact) of a point
/// of P-256 other than the identity, that is, of a valid public key.
pub uninterp spec fn p256_sec1_valid(b: Seq<u8>) -> bool;

/// The same for P-384.
pub uninterp spec fn p384_sec1_valid(b: Seq<u8>) -> bool;

/// The same for P-521.
pub uninterp spec fn p521_sec1_valid(b: Seq<u8>) -> bool;

/// Whether `b` is a public key of kind `kind`: 32 bytes for Ed25519, a SEC1
/// point on the curve for the NIST curves.
pub open spec fn valid_key_bytes(kind: KeyKind, b: Seq<u8>) -> bool {
    match kind {
        KeyKind::Ed25519 => b.len() == 32,
        KeyKind::P256 => p256_sec1_valid(b),
        KeyKind::P384 => p384_sec1_valid(b),
        KeyKind::P521 => p521_sec1_valid(b),
    }
}

/// The EC JWK of the P-256 public key that `b` encodes.
pub uninterp spec fn p256_jwk_of(b: Seq<u8>) -> jose_jwk::Jwk;

/// The EC JWK of the P-384 public key that `b` encodes.
pub uninterp spec fn p384_jwk_of(b: Seq<u8>) -> jose_jwk::Jwk;

/// The EC JWK of the P-521 public key that `b` encodes.
pub uninterp spec fn p521_jwk_of(b: Seq<u8>) -> jose_jwk::Jwk;

/// The OKP JWK of the Ed25519 public key `b`.
pub uninterp spec fn ed25519_jwk_of(b: Seq<u8>) -> jose_jwk::Jwk;

/// The JWK of the public key of kind `kind` with bytes `b`.
pub open spec fn jwk_of(kind: KeyKind, b: Seq<u8>) -> jose_jwk::Jwk {
    match kind {
        KeyKind::Ed25519 => ed25519_jwk_of(b),
        KeyKind::P256 => p256_jwk_of(b),
        KeyKind::P384 => p384_jwk_of(b),
        KeyKind::P521 => p521_jwk_of(b),
    }
}

/// Relies on `p256::PublicKey::from_sec1_bytes`, which accepts exactly the
/// SEC1 encodings of valid public keys (the rest of the curve's points), and on `jose_jwk`'s conversion of
/// such a key into an EC JWK.
#[verifier::external_body]
fn p256_jwk(b: &Vec<u8>) -> (r: Option<jose_jwk::Jwk>)
    ensures
        r is Some <==> p256_sec1_valid(b@),
        r matches Some(j) ==> j == p256_jwk_of(b@),
{
    match p256::PublicKey::from_sec1_bytes(b) {
        Ok(k) => Some(jose_jwk::Jwk { key: jose_jwk::Key::Ec(k.into()), prm: Default::default() }),
        Err(_) => None,
    }
}

/// Relies on `p384::PublicKey::from_sec1_bytes`, which accepts exactly the
/// SEC1 encodings of valid public keys, and on `jose_jwk`'s conversion of
/// such a key into an EC JWK.
#[verifier::external_body]
fn p384_jwk(b: &Vec<u8>) -> (r: Option<jose_jwk::Jwk>)
    ensures
        r is Some <==> p384_sec1_valid(b@),
        r matches Some(j) ==> j == p384_jwk_of(b@),
{
    match p384::PublicKey::from_sec1_bytes(b) {
        Ok(k) => Some(jose_jwk::Jwk { key: jose_jwk::Key::Ec(k.into()), prm: Default::default() }),
        Err(_) => None,
    }
}

/// Relies on `p521::PublicKey::from_sec1_bytes`, which accepts exactly the
/// SEC1 encodings of valid public keys, and on its JWK export read back
/// as a `jose_jwk::Jwk`.
#[verifier::external_body]
fn p521_jwk(b: &Vec<u8>) -> (r: Option<jose_jwk::Jwk>)
    ensures
        r is Some <==> p521_sec1_valid(b@),
        r matches Some(j) ==> j == p521_jwk_of(b@),
{
    match p521::PublicKey::from_sec1_bytes(b) {
        Ok(k) => serde_json::from_str(&k.to_jwk_string()).ok(),
        Err(_) => None,
    }
}

/// Relies on `jose_jwk`'s OKP key type: an Ed25519 public key as a JWK.
#[verifier::external_body]
fn ed25519_jwk(b: &Vec<u8>) -> (r: jose_jwk::Jwk)
    ensures
        r == ed25519_jwk_of(b@),
{
    let okp = jose_jwk::Okp { crv: jose_jwk::OkpCurves::Ed25519, x: b.clone().into(), d: None };
    jose_jwk::Jwk { key: jose_jwk::Key::Okp(okp), prm: Default::default() }
}

impl KeyKind {
    /// The multicodec code of this kind.
    pub fn code_u64(&self) -> (r: u64)
        ensures
            r == codec_code(*self),
    {
        match self {
            KeyKind::Ed25519 => 0xed,
            KeyKind::P256 => 0x1200,
            KeyKind::P384 => 0x1201,
            KeyKind::P521 => 0x1202,
        }
    }

    /// The multicodec prefix of this kind.
    pub fn code(&self) -> (r: Vec<u8>)
        ensures
            r@ == codec_prefix(*self),
    {
        encode_varint(self.code_u64())
    }
}

/// A public key: its kind and its bytes (compressed SEC1 for the NIST curves).
#[derive(Debug)]
pub struct PublicKey {
    pub kind: KeyKind,
    pub bytes: Vec<u8>,
}

impl PublicKey {
    /// The bytes form a key of the stated kind.
    pub open spec fn wf(&self) -> bool {
        valid_key_bytes(self.kind, self.bytes@)
    }

    /// Checks that `bytes` are a public key of kind `kind`.
    pub fn parse(kind: KeyKind, bytes: Vec<u8>) -> (r: Option<PublicKey>)
        ensures
            r is Some <==> valid_key_bytes(kind, bytes@),
            r matches Some(k) ==> k.kind == kind && k.bytes@ == bytes@,
    {
        let ok = match kind {
            KeyKind::Ed25519 => bytes.len() == 32,
            KeyKind::P256 => p256_jwk(&bytes).is_some(),
            KeyKind::P384 => p384_jwk(&bytes).is_some(),
            KeyKind::P521 => p521_jwk(&bytes).is_some(),
        };
        if ok {
            Some(PublicKey { kind, bytes })
        } else {
            None
        }
    }

    /// The key as a JSON Web Key; none where the bytes are not a key of its kind.
    pub fn to_jwk(&self) -> (r: Option<jose_jwk::Jwk>)
        ensures
            r is Some <==> self.wf(),
            self.wf() ==> r == Some(jwk_of(self.kind, self.bytes@)),
    {
        match self.kind {
            KeyKind::Ed25519 => if self.bytes.len() == 32 {
                Some(ed25519_jwk(&self.bytes))
            } else {
                None
            },
            KeyKind::P256 => p256_jwk(&self.bytes),
            KeyKind::P384 => p384_jwk(&self.bytes),
            KeyKind::P521 => p521_jwk(&self.bytes),
        }
    }
}

} // verus!
