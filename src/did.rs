//! The identifier itself: `did:<method-name>:<method-specific-id>`.

use crate::uri::{
    find_char, index_of, is_ascii_alnum, is_ascii_digit, is_ascii_lower, is_hex_digit, lemma_index_of,
    lemma_index_of_bounds,
};
use vstd::prelude::*;
use vstd::string::*;

verus! {

/// A method-name character: a lowercase ASCII letter or a digit.
pub open spec fn is_name_char(c: char) -> bool {
    is_ascii_lower(c) || is_ascii_digit(c)
}

/// A non-empty run of lowercase letters and digits.
pub open spec fn valid_method_name(s: Seq<char>) -> bool {
    s.len() > 0 && forall|i: int| 0 <= i < s.len() ==> is_name_char(#[trigger] s[i])
}

/// An `idchar`: an ASCII letter or digit, `.`, `-`, `_` or `%`.
pub open spec fn is_idchar(c: char) -> bool {
    is_ascii_alnum(c) || c == '.' || c == '-' || c == '_' || c == '%' || is_hex_digit(c)
}

/// Every character of `s` is an `idchar`.
pub open spec fn all_idchars(s: Seq<char>) -> bool {
    forall|i: int| 0 <= i < s.len() ==> is_idchar(#[trigger] s[i])
}

/// A colon-separated sequence of `idchar` groups: every character is an
/// `idchar` or `:`.
pub open spec fn valid_method_id(s: Seq<char>) -> bool {
    forall|i: int| 0 <= i < s.len() ==> is_idchar(#[trigger] s[i]) || s[i] == ':'
}

/// The method-specific id of a DID: present (not empty) and made of `idchar`
/// groups.
pub open spec fn valid_did_method_id(s: Seq<char>) -> bool {
    s.len() > 0 && valid_method_id(s)
}

/// The text `did:<name>:<id>`.
pub open spec fn did_text(v: (Seq<char>, Seq<char>)) -> Seq<char> {
    seq!['d', 'i', 'd', ':'] + v.0 + seq![':'] + v.1
}

/// Why a text is not a DID.
#[derive(Clone, Copy, Debug, PartialEq, Eq, Structural)]
pub enum DidError {
    /// The text before the first colon is not `did`.
    InvalidScheme,
    /// There is no colon after the scheme.
    MissingMethodName,
    /// There is no colon after the method name.
    MissingMethodId,
    /// The method name is empty or holds a character other than a lowercase letter or digit.
    InvalidMethodName,
    /// The method-specific id is empty or holds a character that is not an `idchar` or `:`.
    InvalidMethodId,
}

/// What parsing `s` as a DID gives: the method name and method-specific id,
/// or the first rule that `s` breaks.
pub open spec fn parse_did(s: Seq<char>) -> Result<(Seq<char>, Seq<char>), DidError> {
    let k1 = index_of(s, ':');
    if s.subrange(0, k1) != seq!['d', 'i', 'd'] {
        Err(DidError::InvalidScheme)
    } else if k1 == s.len() {
        Err(DidError::MissingMethodName)
    } else {
        let rest = s.subrange(k1 + 1, s.len() as int);
        let k2 = index_of(rest, ':');
        if k2 == rest.len() {
            Err(DidError::MissingMethodId)
        } else {
            let name = rest.subrange(0, k2);
            let id = rest.subrange(k2 + 1, rest.len() as int);
            if !valid_method_name(name) {
                Err(DidError::InvalidMethodName)
            } else if !valid_did_method_id(id) {
                Err(DidError::InvalidMethodId)
            } else {
                Ok((name, id))
            }
        }
    }
}

/// The name of a DID method, such as `key` or `web`.
#[derive(Debug)]
pub struct MethodName(pub String);

/// The method-specific part of a DID.
#[derive(Debug)]
pub struct MethodId(pub String);

/// A decentralized identifier.
#[derive(Debug)]
pub struct Did {
    pub method_name: MethodName,
    pub method_id: MethodId,
}

impl View for MethodName {
    type V = Seq<char>;

    open spec fn view(&self) -> Seq<char> {
        self.0@
    }
}

impl View for MethodId {
    type V = Seq<char>;

    open spec fn view(&self) -> Seq<char> {
        self.0@
    }
}

impl View for Did {
    type V = (Seq<char>, Seq<char>);

    open spec fn view(&self) -> (Seq<char>, Seq<char>) {
        (self.method_name@, self.method_id@)
    }
}

pub open spec fn did_result_view(r: Result<Did, DidError>) -> Result<
    (Seq<char>, Seq<char>),
    DidError,
> {
    match r {
        Ok(d) => Ok(d@),
        Err(e) => Err(e),
    }
}

impl PartialEq for MethodName {
    fn eq(&self, other: &MethodName) -> (r: bool) {
        self.0 == other.0
    }
}

impl vstd::std_specs::cmp::PartialEqSpecImpl for MethodName {
    open spec fn obeys_eq_spec() -> bool {
        true
    }

    open spec fn eq_spec(&self, other: &MethodName) -> bool {
        self@ == other@
    }
}

impl Eq for MethodName {

}

impl PartialEq for MethodId {
    fn eq(&self, other: &MethodId) -> (r: bool) {
        self.0 == other.0
    }
}

impl vstd::std_specs::cmp::PartialEqSpecImpl for MethodId {
    open spec fn obeys_eq_spec() -> bool {
        true
    }

    open spec fn eq_spec(&self, other: &MethodId) -> bool {
        self@ == other@
    }
}

impl Eq for MethodId {

}

impl PartialEq for Did {
    fn eq(&self, other: &Did) -> (r: bool) {
        self.method_name.0 == other.method_name.0 && self.method_id.0 == other.method_id.0
    }
}

impl vstd::std_specs::cmp::PartialEqSpecImpl for Did {
    open spec fn obeys_eq_spec() -> bool {
        true
    }

    open spec fn eq_spec(&self, other: &Did) -> bool {
        self@ == other@
    }
}

impl Eq for Did {

}

impl Clone for MethodName {
    fn clone(&self) -> (r: MethodName)
        ensures
            r == *self,
    {
        MethodName(self.0.clone())
    }
}

impl Clone for MethodId {
    fn clone(&self) -> (r: MethodId)
        ensures
            r == *self,
    {
        MethodId(self.0.clone())
    }
}

impl Clone for Did {
    fn clone(&self) -> (r: Did)
        ensures
            r == *self,
    {
        Did { method_name: self.method_name.clone(), method_id: self.method_id.clone() }
    }
}

/// Whether every character of `s` is an `idchar`.
pub fn is_valid_idchar(s: &str) -> (r: bool)
    ensures
        r == all_idchars(s@),
{
    let n = s.unicode_len();
    let mut i: usize = 0;
    while i < n
        invariant
            n == s@.len(),
            i <= n,
            forall|j: int| 0 <= j < i ==> is_idchar(#[trigger] s@[j]),
        decreases n - i,
    {
        let c = s.get_char(i);
        if !(('a' <= c && c <= 'z') || ('A' <= c && c <= 'Z') || ('0' <= c && c <= '9') || c
            == '.' || c == '-' || c == '_' || c == '%') {
            assert(!is_idchar(s@[i as int]));
            return false;
        }
        i = i + 1;
    }
    true
}

impl MethodName {
    /// Checks that `s` is a method name.
    pub fn from_str(s: &str) -> (r: Result<MethodName, DidError>)
        ensures
            r is Ok <==> valid_method_name(s@),
            r matches Ok(m) ==> m@ == s@,
            r matches Err(e) ==> e == DidError::InvalidMethodName,
    {
        let n = s.unicode_len();
        if n == 0 {
            return Err(DidError::InvalidMethodName);
        }
        let mut i: usize = 0;
        while i < n
            invariant
                n == s@.len(),
                i <= n,
                forall|j: int| 0 <= j < i ==> is_name_char(#[trigger] s@[j]),
            decreases n - i,
        {
            let c = s.get_char(i);
            if !(('a' <= c && c <= 'z') || ('0' <= c && c <= '9')) {
                assert(!is_name_char(s@[i as int]));
                return Err(DidError::InvalidMethodName);
            }
            i = i + 1;
        }
        Ok(MethodName(s.to_owned()))
    }
}

impl MethodId {
    /// Checks that `s` is a method-specific id.
    pub fn from_str(s: &str) -> (r: Result<MethodId, DidError>)
        ensures
            r is Ok <==> valid_method_id(s@),
            r matches Ok(m) ==> m@ == s@,
            r matches Err(e) ==> e == DidError::InvalidMethodId,
    {
        let n = s.unicode_len();
        let mut i: usize = 0;
        while i < n
            invariant
                n == s@.len(),
                i <= n,
                forall|j: int| 0 <= j < i ==> is_idchar(#[trigger] s@[j]) || s@[j] == ':',
            decreases n - i,
        {
            let c = s.get_char(i);
            if !(('a' <= c && c <= 'z') || ('A' <= c && c <= 'Z') || ('0' <= c && c <= '9') || c
                == '.' || c == '-' || c == '_' || c == '%' || c == ':') {
                assert(!(is_idchar(s@[i as int]) || s@[i as int] == ':'));
                return Err(DidError::InvalidMethodId);
            }
            i = i + 1;
        }
        Ok(MethodId(s.to_owned()))
    }
}

fn is_did_scheme(s: &str) -> (r: bool)
    ensures
        r == (s@ == seq!['d', 'i', 'd']),
{
    if s.unicode_len() != 3 {
        return false;
    }
    let r = s.get_char(0) == 'd' && s.get_char(1) == 'i' && s.get_char(2) == 'd';
    if r {
        assert(s@ =~= seq!['d', 'i', 'd']);
    }
    r
}

impl Did {
    /// The method name and method-specific id are both valid.
    pub open spec fn wf(&self) -> bool {
        valid_method_name(self.method_name@) && valid_did_method_id(self.method_id@)
    }

    /// Parses `did:<method-name>:<method-specific-id>`. The method-specific id
    /// is everything after the second colon and may hold colons itself.
    pub fn from_str(s: &str) -> (r: Result<Did, DidError>)
        ensures
            did_result_view(r) == parse_did(s@),
            r matches Ok(d) ==> d.wf() && did_text(d@) == s@,
    {
        proof {
            lemma_parse_did_ok(s@);
        }
        let n = s.unicode_len();
        let k1 = find_char(s, ':');
        proof {
            lemma_index_of_bounds(s@, ':');
        }
        let scheme = s.substring_char(0, k1);
        if !is_did_scheme(scheme) {
            return Err(DidError::InvalidScheme);
        }
        if k1 == n {
            return Err(DidError::MissingMethodName);
        }
        let rest = s.substring_char(k1 + 1, n);
        let m = rest.unicode_len();
        let k2 = find_char(rest, ':');
        proof {
            lemma_index_of_bounds(rest@, ':');
        }
        if k2 == m {
            return Err(DidError::MissingMethodId);
        }
        let name = rest.substring_char(0, k2);
        let id = rest.substring_char(k2 + 1, m);
        let method_name = match MethodName::from_str(name) {
            Ok(v) => v,
            Err(e) => return Err(e),
        };
        let method_id = match MethodId::from_str(id) {
            Ok(v) => v,
            Err(e) => return Err(e),
        };
        if id.unicode_len() == 0 {
            return Err(DidError::InvalidMethodId);
        }
        Ok(Did { method_name, method_id })
    }

    /// The text `did:<method-name>:<method-specific-id>`.
    pub fn to_string(&self) -> (r: String)
        ensures
            r@ == did_text(self@),
    {
        let mut r = String::from_str("did:");
        r.append(self.method_name.0.as_str());
        r.append(":");
        r.append(self.method_id.0.as_str());
        proof {
            reveal_strlit("did:");
            reveal_strlit(":");
            assert(r@ =~= did_text(self@));
        }
        r
    }
}

/// A successful parse gives back the text it was given.
pub proof fn lemma_parse_did_ok(s: Seq<char>)
    ensures
        parse_did(s) matches Ok(v) ==> valid_method_name(v.0) && valid_did_method_id(v.1)
            && did_text(v) == s,
{
    if let Ok(v) = parse_did(s) {
        lemma_index_of_bounds(s, ':');
        let k1 = index_of(s, ':');
        let rest = s.subrange(k1 + 1, s.len() as int);
        lemma_index_of_bounds(rest, ':');
        let k2 = index_of(rest, ':');
        assert(rest =~= v.0 + seq![':'] + v.1);
        assert(s =~= s.subrange(0, k1) + seq![':'] + rest);
        assert(did_text(v) =~= s);
    }
}

/// Round trip: the text of a valid DID parses back to that DID.
pub proof fn lemma_did_round_trip(v: (Seq<char>, Seq<char>))
    requires
        valid_method_name(v.0),
        valid_did_method_id(v.1),
    ensures
        parse_did(did_text(v)) == Ok::<(Seq<char>, Seq<char>), DidError>(v),
{
    let s = did_text(v);
    assert(s[0] == 'd' && s[1] == 'i' && s[2] == 'd' && s[3] == ':');
    lemma_index_of(s, ':', 3);
    assert(s.subrange(0, 3) =~= seq!['d', 'i', 'd']);
    let rest = s.subrange(4, s.len() as int);
    assert(rest =~= v.0 + seq![':'] + v.1);
    assert forall|j: int| 0 <= j < v.0.len() implies rest[j] != ':' by {
        assert(rest[j] == v.0[j]);
        assert(is_name_char(v.0[j]));
    }
    lemma_index_of(rest, ':', v.0.len() as int);
    assert(rest.subrange(0, v.0.len() as int) =~= v.0);
    assert(rest.subrange(v.0.len() as int + 1, rest.len() as int) =~= v.1);
}

} // verus!
