//! The `did:key` method: a DID that embeds a public key, and its resolution
//! into a document without any lookup.

use crate::did::{Did, MethodId, MethodName};
use crate::did_url::{DidUrl, DidUrlView};
use crate::document::{Document, VerificationMethod, VerificationMethodMap};
use crate::keys::{codec_prefix, jwk_of, valid_key_bytes, varint, KeyKind, PublicKey};
use crate::uri::is_ascii_alnum;
use crate::{Method, ResolutionError};
use vstd::prelude::*;
use vstd::string::*;

verus! {

/// The text of `b` in multibase base58btc: `z` and the base58 digits.
pub uninterp spec fn multibase_base58btc(b: Seq<u8>) -> Seq<char>;

/// The bytes that the multibase text `s` stands for, if it is one.
pub uninterp spec fn multibase_decoded(s: Seq<char>) -> Option<Seq<u8>>;

/// Relies on `multibase::encode` with `Base::Base58Btc`: the base code `z`
/// followed by digits of the bitcoin alphabet, which are ASCII letters and digits.
#[verifier::external_body]
fn encode_base58btc(b: &Vec<u8>) -> (r: String)
    ensures
        r@ == multibase_base58btc(b@),
        r@.len() > 0,
        r@[0] == 'z',
        forall|i: int| 0 <= i < r@.len() ==> is_ascii_alnum(#[trigger] r@[i]),
{
    multibase::encode(multibase::Base::Base58Btc, b)
}

#[verifier::external_type_specification]
#[verifier::external_body]
pub struct ExMultibaseError(multibase::Error);

/// Relies on `multibase::decode`: the first character names the base, and
/// the rest is decoded in that base; the base's code is handed back. Text
/// that `multibase::encode` wrote in base58btc decodes to the bytes it was
/// written from.
#[verifier::external_body]
fn decode_multibase(s: &str) -> (r: Result<(char, Vec<u8>), multibase::Error>)
    ensures
        r is Ok <==> multibase_decoded(s@) is Some,
        r matches Ok(v) ==> s@.len() > 0 && v.0 == s@[0] && v.1@ == multibase_decoded(s@)->0,
        forall|b: Seq<u8>| #[trigger] multibase_base58btc(b) == s@ ==> (r is Ok && r->Ok_0.0 == 'z' && r->Ok_0.1@ == b),
{
    match multibase::decode(s) {
        Ok((base, bytes)) => Ok((base.code(), bytes)),
        Err(e) => Err(e),
    }
}

/// The method-specific id of the `did:key` of a key: its multicodec prefix
/// and bytes, in multibase base58btc.
pub open spec fn did_key_id(kind: KeyKind, bytes: Seq<u8>) -> Seq<char> {
    multibase_base58btc(codec_prefix(kind) + bytes)
}

pub open spec fn key_method_name() -> Seq<char> {
    seq!['k', 'e', 'y']
}

/// The name of the `did:key` method.
pub const KEY_METHOD_NAME: &'static str = "key";

fn concat_bytes(a: &Vec<u8>, b: &Vec<u8>) -> (r: Vec<u8>)
    ensures
        r@ == a@ + b@,
{
    let mut r: Vec<u8> = Vec::new();
    let mut i: usize = 0;
    while i < a.len()
        invariant
            i <= a@.len(),
            r@ == a@.subrange(0, i as int),
        decreases a@.len() - i,
    {
        r.push(a[i]);
        i = i + 1;
    }
    let mut j: usize = 0;
    while j < b.len()
        invariant
            j <= b@.len(),
            r@ == a@ + b@.subrange(0, j as int),
        decreases b@.len() - j,
    {
        r.push(b[j]);
        j = j + 1;
    }
    assert(a@.subrange(0, a@.len() as int) =~= a@);
    assert(b@.subrange(0, b@.len() as int) =~= b@);
    r
}

impl PublicKey {
    /// The `did:key` DID of this key.
    pub fn to_did(&self) -> (r: Did)
        ensures
            r@ == (key_method_name(), did_key_id(self.kind, self.bytes@)),
            r.wf(),
    {
        let inner = concat_bytes(&self.kind.code(), &self.bytes);
        let id = encode_base58btc(&inner);
        proof {
            reveal_strlit("key");
        }
        Did { method_name: MethodName(KEY_METHOD_NAME.to_owned()), method_id: MethodId(id) }
    }
}

/// A DID that embeds a public key.
pub struct DidKey {
    key: PublicKey,
}

impl DidKey {
    /// The embedded key.
    pub closed spec fn key(&self) -> PublicKey {
        self.key
    }

    /// The DID of `key`.
    pub fn new(key: PublicKey) -> (r: DidKey)
        ensures
            r.key() == key,
    {
        DidKey { key }
    }

    /// The DID: method `key`, and the key's multicodec prefix and bytes in
    /// multibase base58btc as method-specific id.
    pub fn to_did(&self) -> (r: Did)
        ensures
            r@ == (key_method_name(), did_key_id(self.key().kind, self.key().bytes@)),
            r.wf(),
    {
        self.key.to_did()
    }
}

/// The key kinds a parser tries, kept inline in a `SmallVec`.
#[verifier::external_body]
pub struct KindList {
    items: smallvec::SmallVec<[KeyKind; 4]>,
}

/// The key kinds that a list holds, in order.
pub uninterp spec fn registered_kinds(v: KindList) -> Seq<KeyKind>;

/// Relies on `SmallVec::new`: an empty list.
#[verifier::external_body]
fn kinds_new() -> (r: KindList)
    ensures
        registered_kinds(r) == Seq::<KeyKind>::empty(),
{
    KindList { items: smallvec::SmallVec::new() }
}

/// Relies on `SmallVec::push`: the item goes at the end.
#[verifier::external_body]
fn kinds_push(v: &mut KindList, k: KeyKind)
    ensures
        registered_kinds(*final(v)) == registered_kinds(*old(v)).push(k),
{
    v.items.push(k)
}

/// Relies on `SmallVec::len`: the number of items.
#[verifier::external_body]
fn kinds_len(v: &KindList) -> (r: usize)
    ensures
        r == registered_kinds(*v).len(),
{
    v.items.len()
}

/// Relies on indexing a `SmallVec`: the item at position `i`.
#[verifier::external_body]
fn kinds_at(v: &KindList, i: usize) -> (r: KeyKind)
    requires
        i < registered_kinds(*v).len(),
    ensures
        r == registered_kinds(*v)[i as int],
{
    v.items[i]
}

/// Why the method-specific id of a `did:key` does not give a public key.
#[derive(Debug)]
pub enum ParseError {
    /// The id is not multibase text.
    Decode(multibase::Error),
    /// The id is multibase text in a base other than base58btc; the base's code.
    UnexpectedBase(char),
    /// No registered key kind's multicodec prefix starts the decoded bytes.
    CodecNotSupported,
    /// The bytes after the prefix are not a public key of that kind.
    InvalidPublicKey,
}

pub open spec fn is_prefix(p: Seq<u8>, b: Seq<u8>) -> bool {
    p.len() <= b.len() && b.subrange(0, p.len() as int) == p
}

/// The first of `kinds` whose multicodec prefix starts `b`.
pub open spec fn matching_kind(kinds: Seq<KeyKind>, b: Seq<u8>) -> Option<KeyKind>
    decreases kinds.len(),
{
    if kinds.len() == 0 {
        None
    } else if is_prefix(codec_prefix(kinds[0]), b) {
        Some(kinds[0])
    } else {
        matching_kind(kinds.drop_first(), b)
    }
}

/// The key that decoded bytes `b` carry: the first registered kind whose
/// prefix starts them, and the bytes after that prefix.
pub open spec fn key_from_payload(kinds: Seq<KeyKind>, b: Seq<u8>) -> Result<
    (KeyKind, Seq<u8>),
    ParseError,
> {
    match matching_kind(kinds, b) {
        None => Err(ParseError::CodecNotSupported),
        Some(k) => {
            let rest = b.subrange(codec_prefix(k).len() as int, b.len() as int);
            if valid_key_bytes(k, rest) {
                Ok((k, rest))
            } else {
                Err(ParseError::InvalidPublicKey)
            }
        },
    }
}

pub open spec fn key_result_view(r: Result<PublicKey, ParseError>) -> Result<
    (KeyKind, Seq<u8>),
    ParseError,
> {
    match r {
        Ok(k) => Ok((k.kind, k.bytes@)),
        Err(e) => Err(e),
    }
}

fn starts_with(b: &Vec<u8>, p: &Vec<u8>) -> (r: bool)
    ensures
        r == is_prefix(p@, b@),
{
    if p.len() > b.len() {
        return false;
    }
    let mut i: usize = 0;
    while i < p.len()
        invariant
            p@.len() <= b@.len(),
            i <= p@.len(),
            forall|j: int| 0 <= j < i ==> b@[j] == p@[j],
        decreases p@.len() - i,
    {
        if b[i] != p[i] {
            return false;
        }
        i = i + 1;
    }
    assert(b@.subrange(0, p@.len() as int) =~= p@);
    true
}

fn bytes_from(b: &Vec<u8>, from: usize) -> (r: Vec<u8>)
    requires
        from <= b@.len(),
    ensures
        r@ == b@.subrange(from as int, b@.len() as int),
{
    let mut r: Vec<u8> = Vec::new();
    let mut i: usize = from;
    while i < b.len()
        invariant
            from <= i <= b@.len(),
            r@ == b@.subrange(from as int, i as int),
        decreases b@.len() - i,
    {
        r.push(b[i]);
        i = i + 1;
    }
    r
}

/// Reads the public key out of a `did:key` DID.
pub struct DidKeyParser {
    parsers: KindList,
}

impl DidKeyParser {
    /// The key kinds this parser recognises, in the order they are tried.
    pub closed spec fn kinds(&self) -> Seq<KeyKind> {
        registered_kinds(self.parsers)
    }

    /// A parser for P-256, P-384, P-521 and Ed25519 keys, tried in that order.
    pub fn default() -> (r: DidKeyParser)
        ensures
            r.kinds() == seq![KeyKind::P256, KeyKind::P384, KeyKind::P521, KeyKind::Ed25519],
    {
        let mut parsers = kinds_new();
        kinds_push(&mut parsers, KeyKind::P256);
        kinds_push(&mut parsers, KeyKind::P384);
        kinds_push(&mut parsers, KeyKind::P521);
        kinds_push(&mut parsers, KeyKind::Ed25519);
        let r = DidKeyParser { parsers };
        assert(r.kinds() =~= seq![KeyKind::P256, KeyKind::P384, KeyKind::P521, KeyKind::Ed25519]);
        r
    }

    /// Decodes the method-specific id of `did` from multibase base58btc and
    /// reads the key it carries: the first recognised kind whose multicodec
    /// prefix starts the bytes, and the bytes after it as a key of that kind.
    pub fn parse(&self, did: &Did) -> (r: Result<PublicKey, ParseError>)
        ensures
            multibase_decoded(did.method_id@) is None <==> r matches Err(ParseError::Decode(_)),
            multibase_decoded(did.method_id@) is Some && did.method_id@[0] != 'z' ==> r == Err::<
                PublicKey,
                ParseError,
            >(ParseError::UnexpectedBase(did.method_id@[0])),
            multibase_decoded(did.method_id@) is Some && did.method_id@[0] == 'z' ==> key_result_view(r)
                == key_from_payload(self.kinds(), multibase_decoded(did.method_id@)->0),
            r matches Ok(k) ==> k.wf(),
            forall|k: KeyKind, b: Seq<u8>| #[trigger] did_key_id(k, b) == did.method_id@ ==> multibase_decoded(did.method_id@) == Some(codec_prefix(k) + b) && did.method_id@[0] == 'z',
    {
        let (base, inner) = match decode_multibase(did.method_id.0.as_str()) {
            Ok(v) => v,
            Err(e) => return Err(ParseError::Decode(e)),
        };
        if base != 'z' {
            return Err(ParseError::UnexpectedBase(base));
        }
        let ghost kinds = self.kinds();
        assert forall|k: KeyKind, b: Seq<u8>| #[trigger] did_key_id(k, b) == did.method_id@ implies multibase_decoded(did.method_id@) == Some(codec_prefix(k) + b) && did.method_id@[0] == 'z' by {
            assert(multibase_base58btc(codec_prefix(k) + b) == did.method_id@);
        }
        let n = kinds_len(&self.parsers);
        let mut i: usize = 0;
        assert(kinds.subrange(0, n as int) =~= kinds);
        while i < n
            invariant
                n == kinds.len(),
                kinds == self.kinds(),
                multibase_decoded(did.method_id@) == Some(inner@),
                did.method_id@.len() > 0,
                did.method_id@[0] == 'z',
                forall|k: KeyKind, b: Seq<u8>| #[trigger] did_key_id(k, b) == did.method_id@ ==> multibase_decoded(did.method_id@) == Some(codec_prefix(k) + b),
                i <= n,
                matching_kind(kinds, inner@) == matching_kind(kinds.subrange(i as int, n as int), inner@),
            decreases n - i,
        {
            let ghost rest = kinds.subrange(i as int, n as int);
            assert(rest.drop_first() =~= kinds.subrange(i + 1, n as int));
            let kind = kinds_at(&self.parsers, i);
            let code = kind.code();
            if starts_with(&inner, &code) {
                let key_bytes = bytes_from(&inner, code.len());
                return match PublicKey::parse(kind, key_bytes) {
                    Some(k) => Ok(k),
                    None => Err(ParseError::InvalidPublicKey),
                };
            }
            i = i + 1;
        }
        Err(ParseError::CodecNotSupported)
    }
}

/// The kinds that `DidKeyParser::default` tries, in order.
pub open spec fn default_kinds() -> Seq<KeyKind> {
    seq![KeyKind::P256, KeyKind::P384, KeyKind::P521, KeyKind::Ed25519]
}

/// The multicodec prefixes of the four kinds.
pub proof fn lemma_codec_prefixes()
    ensures
        codec_prefix(KeyKind::Ed25519) == seq![0xedu8, 0x01u8],
        codec_prefix(KeyKind::P256) == seq![0x80u8, 0x24u8],
        codec_prefix(KeyKind::P384) == seq![0x81u8, 0x24u8],
        codec_prefix(KeyKind::P521) == seq![0x82u8, 0x24u8],
{
    reveal_with_fuel(varint, 3);
    assert(varint(0xed) =~= seq![0xedu8, 0x01u8]);
    assert(varint(0x1200) =~= seq![0x80u8, 0x24u8]);
    assert(varint(0x1201) =~= seq![0x81u8, 0x24u8]);
    assert(varint(0x1202) =~= seq![0x82u8, 0x24u8]);
}

/// The bytes of a derived identifier give back the kind and key they were
/// derived from, under the default kinds.
pub proof fn lemma_default_payload(k: KeyKind, b: Seq<u8>)
    requires
        valid_key_bytes(k, b),
    ensures
        key_from_payload(default_kinds(), codec_prefix(k) + b) == Ok::<(KeyKind, Seq<u8>), ParseError>((k, b)),
{
    lemma_codec_prefixes();
    reveal_with_fuel(matching_kind, 5);
    let p = codec_prefix(k) + b;
    let ks = default_kinds();
    assert(p.subrange(0, 2) =~= codec_prefix(k));
    assert(p.subrange(2, p.len() as int) =~= b);
    assert(p[0] == codec_prefix(k)[0]);
    assert(ks.drop_first() =~= seq![KeyKind::P384, KeyKind::P521, KeyKind::Ed25519]);
    assert(ks.drop_first().drop_first() =~= seq![KeyKind::P521, KeyKind::Ed25519]);
    assert(ks.drop_first().drop_first().drop_first() =~= seq![KeyKind::Ed25519]);
    if k != KeyKind::P256 {
        assert(p.subrange(0, 2)[0] != codec_prefix(KeyKind::P256)[0]);
        if k != KeyKind::P384 {
            assert(p.subrange(0, 2)[0] != codec_prefix(KeyKind::P384)[0]);
            if k != KeyKind::P521 {
                assert(p.subrange(0, 2)[0] != codec_prefix(KeyKind::P521)[0]);
            }
        }
    }
    assert(matching_kind(ks, p) == Some(k));
}

/// The verification method of a `did:key` document: the DID with its
/// method-specific id as fragment.
pub open spec fn key_method_url(did: (Seq<char>, Seq<char>)) -> DidUrlView {
    (did, None, None, Some(did.1))
}

/// A role list that holds exactly one reference, to `url`.
pub open spec fn refers_only_to(list: Option<Vec<VerificationMethod>>, url: DidUrl) -> bool {
    list matches Some(v) && v@ == seq![VerificationMethod::Url(url)]
}

/// The kind and bytes of the key that a `did:key` DID embeds, where it
/// embeds one.
pub open spec fn embedded_key(did: Did) -> (KeyKind, Seq<u8>) {
    key_from_payload(default_kinds(), multibase_decoded(did.method_id@)->0)->Ok_0
}

/// The document that a `did:key` DID resolves to: one JSON Web Key method
/// that holds the JWK of the embedded key and whose id is the DID with its
/// method-specific id as fragment, referred to for authentication,
/// assertion, capability invocation and delegation.
pub open spec fn is_key_document(doc: Document, did: Did) -> bool {
    &&& doc.id == did
    &&& doc.also_known_as is None
    &&& doc.controller is None
    &&& doc.verification_method matches Some(v) && v@.len() == 1 && {
        let m = v@[0];
        &&& m.id@ == key_method_url(did@)
        &&& m.controller == did
        &&& m.typ@ == "JsonWebKey2020"@
        &&& m.public_key_jwk == Some(jwk_of(embedded_key(did).0, embedded_key(did).1))
        &&& m.public_key_multibase is None
        &&& refers_only_to(doc.authentication, m.id)
        &&& refers_only_to(doc.assertion_method, m.id)
        &&& refers_only_to(doc.capability_invocation, m.id)
        &&& refers_only_to(doc.capability_delegation, m.id)
    }
    &&& doc.key_agreement is None
    &&& doc.service is None
}

fn single_reference(url: &DidUrl) -> (r: Option<Vec<VerificationMethod>>)
    ensures
        refers_only_to(r, *url),
{
    let mut v: Vec<VerificationMethod> = Vec::new();
    v.push(VerificationMethod::Url(url.clone()));
    assert(v@ =~= seq![VerificationMethod::Url(*url)]);
    Some(v)
}

/// What resolving `did` with the `did:key` method gives: a document exactly
/// where the method-specific id is base58btc multibase text of a recognised
/// multicodec prefix and a valid key of that kind (in particular wherever the
/// id was derived from a valid key), and `InvalidDid` otherwise.
pub open spec fn key_resolution(did: Did, r: Result<Document, ResolutionError>) -> bool {
    &&& r is Ok <==> multibase_decoded(did.method_id@) is Some && did.method_id@[0] == 'z'
        && key_from_payload(default_kinds(), multibase_decoded(did.method_id@)->0) is Ok
    &&& r matches Err(e) ==> e is InvalidDid
    &&& r matches Ok(doc) ==> is_key_document(doc, did)
    &&& forall|k: KeyKind, b: Seq<u8>|
        #[trigger] did_key_id(k, b) == did.method_id@ && valid_key_bytes(k, b) ==> r is Ok
            && embedded_key(did) == (k, b)
}

/// Deriving a DID from a valid public key and resolving it with the
/// `did:key` method gives a document about that DID whose single
/// verification method has the method-specific id as fragment and holds
/// that key's JWK.
pub proof fn lemma_derived_did_resolves(key: PublicKey, did: Did, r: Result<Document, ResolutionError>)
    requires
        key.wf(),
        did@ == (key_method_name(), did_key_id(key.kind, key.bytes@)),
        key_resolution(did, r),
    ensures
        r is Ok,
        r->Ok_0.id == did,
        r->Ok_0.verification_method matches Some(v) && v@.len() == 1 && v@[0].id@.3 == Some(
            did.method_id@,
        ) && v@[0].public_key_jwk == Some(jwk_of(key.kind, key.bytes@)),
{
    assert(did_key_id(key.kind, key.bytes@) == did.method_id@);
}

/// The `did:key` method.
pub struct MethodDidKey;

impl Method for MethodDidKey {
    fn method_name(&self) -> &'static str {
        KEY_METHOD_NAME
    }
}

impl MethodDidKey {
    /// Builds the document of a `did:key` DID from the key it embeds; fails
    /// with `InvalidDid` where no key can be read from it.
    pub fn resolve(&self, did: Did) -> (r: Result<Document, ResolutionError>)
        ensures
            key_resolution(did, r),
    {
        let parser = DidKeyParser::default();
        let key = match parser.parse(&did) {
            Ok(k) => k,
            Err(_) => {
                proof {
                    assert forall|k: KeyKind, b: Seq<u8>| #[trigger] did_key_id(k, b) == did.method_id@ && valid_key_bytes(k, b) implies false by {
                        lemma_default_payload(k, b);
                    }
                }
                return Err(ResolutionError::InvalidDid);
            },
        };
        proof {
            assert forall|k: KeyKind, b: Seq<u8>| #[trigger] did_key_id(k, b) == did.method_id@ && valid_key_bytes(k, b) implies embedded_key(did) == (k, b) by {
                lemma_default_payload(k, b);
            }
        }
        let jwk = match key.to_jwk() {
            Some(j) => j,
            None => return Err(ResolutionError::InvalidDid),
        };
        let did_url = DidUrl {
            did: did.clone(),
            path_abempty: None,
            query: None,
            fragment: Some(did.method_id.0.clone()),
        };
        let mut methods: Vec<VerificationMethodMap> = Vec::new();
        methods.push(
            VerificationMethodMap {
                id: did_url.clone(),
                controller: did.clone(),
                typ: "JsonWebKey2020".to_owned(),
                public_key_jwk: Some(jwk),
                public_key_multibase: None,
            },
        );
        Ok(Document {
            id: did.clone(),
            also_known_as: None,
            controller: None,
            verification_method: Some(methods),
            authentication: single_reference(&did_url),
            assertion_method: single_reference(&did_url),
            key_agreement: None,
            capability_invocation: single_reference(&did_url),
            capability_delegation: single_reference(&did_url),
            service: None,
        })
    }
}

} // verus!
