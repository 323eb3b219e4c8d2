//! Where a `did:web` document is published.

use crate::did::Did;
use vstd::prelude::*;
use vstd::string::*;

verus! {

/// The host and path that a `did:web` method-specific id names: each `:`
/// separates path segments, and an encoded colon `%3A` stands for the colon before a port number.
pub open spec fn web_path(s: Seq<char>) -> Seq<char>
    decreases s.len(),
{
    if s.len() == 0 {
        Seq::empty()
    } else if s.len() >= 3 && s[0] == '%' && s[1] == '3' && (s[2] == 'A' || s[2] == 'a') {
        seq![':'] + web_path(s.subrange(3, s.len() as int))
    } else if s[0] == ':' {
        seq!['/'] + web_path(s.drop_first())
    } else {
        seq![s[0]] + web_path(s.drop_first())
    }
}

/// The HTTPS URL of the document of the `did:web` DID with method-specific
/// id `id`: under `/.well-known` when the id has no path.
pub open spec fn web_document_url(id: Seq<char>) -> Seq<char> {
    seq!['h', 't', 't', 'p', 's', ':', '/', '/'] + web_path(id) + if id.contains(':') {
        seq!['/', 'd', 'i', 'd', '.', 'j', 's', 'o', 'n']
    } else {
        seq!['/', '.', 'w', 'e', 'l', 'l', '-', 'k', 'n', 'o', 'w', 'n', '/', 'd', 'i', 'd', '.', 'j', 's', 'o', 'n']
    }
}

/// The name of the `did:web` method.
pub const WEB_METHOD_NAME: &'static str = "web";

/// The URL to fetch the document of a `did:web` DID from.
pub fn document_url(did: &Did) -> (r: String)
    ensures
        r@ == web_document_url(did.method_id@),
{
    let s = did.method_id.0.as_str();
    let n = s.unicode_len();
    let mut r = String::from_str("https://");
    proof {
        reveal_strlit("https://");
        reveal_strlit(":");
        reveal_strlit("/");
    }
    let mut i: usize = 0;
    let mut has_colon = false;
    assert(s@.subrange(0, n as int) =~= s@);
    while i < n
        invariant
            n == s@.len(),
            s@ == did.method_id@,
            i <= n,
            r@ + web_path(s@.subrange(i as int, n as int)) == seq![
                'h',
                't',
                't',
                'p',
                's',
                ':',
                '/',
                '/',
            ] + web_path(s@),
            has_colon ==> s@.contains(':'),
            !has_colon ==> forall|j: int| 0 <= j < i ==> s@[j] != ':',
        decreases n - i,
    {
        proof {
            reveal_strlit(":");
            reveal_strlit("/");
        }
        let ghost rest = s@.subrange(i as int, n as int);
        let ghost old_r = r@;
        let c = s.get_char(i);
        assert(rest[0] == c);
        if c == '%' && n - i >= 3 && s.get_char(i + 1) == '3' && (s.get_char(i + 2) == 'A'
            || s.get_char(i + 2) == 'a') {
            assert(rest[1] == s@[i + 1] && rest[2] == s@[i + 2]);
            assert(rest.subrange(3, rest.len() as int) =~= s@.subrange(i + 3, n as int));
            r.append(":");
            i = i + 3;
        } else {
            assert(rest.drop_first() =~= s@.subrange(i + 1, n as int));
            if c == ':' {
                r.append("/");
                assert(s@[i as int] == ':');
                has_colon = true;
            } else {
                r.append(s.substring_char(i, i + 1));
                assert(s@.subrange(i as int, i + 1) =~= seq![c]);
            }
            i = i + 1;
        }
        assert(r@ + web_path(s@.subrange(i as int, n as int)) =~= old_r + web_path(rest));
    }
    assert(s@.subrange(n as int, n as int) =~= Seq::<char>::empty());
    if has_colon {
        r.append("/did.json");
        proof {
            reveal_strlit("/did.json");
        }
    } else {
        r.append("/.well-known/did.json");
        proof {
            reveal_strlit("/.well-known/did.json");
        }
    }
    assert(r@ =~= web_document_url(did.method_id@));
    r
}

} // verus!
