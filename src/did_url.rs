//! DID URLs (a DID with a path, query and fragment) and relative DID URLs.

use crate::did::{
    did_text, is_idchar, is_name_char, lemma_did_round_trip, lemma_parse_did_ok, parse_did,
    valid_did_method_id, valid_method_name, Did, DidError,
};
use crate::uri::{
    find_char, find_delim, index_of, index_of_delim, is_segment, is_segment_nz_nc, is_segments,
    is_url_delim, lemma_index_of, lemma_index_of_bounds, lemma_index_of_delim,
    lemma_index_of_delim_bounds, lemma_pchars_no_query_or_fragment, lemma_pchars_shift, opt_str_view, pchars_from, pchars_ok,
    split_at_char, split_once, Segment,
};
use vstd::prelude::*;
use vstd::string::*;

verus! {

pub open spec fn opt_string_view(o: Option<String>) -> Option<Seq<char>> {
    match o {
        Some(s) => Some(s@),
        None => None,
    }
}

/// `c` followed by the text, or nothing when there is no text.
pub open spec fn prefixed(c: char, o: Option<Seq<char>>) -> Seq<char> {
    match o {
        Some(t) => seq![c] + t,
        None => Seq::empty(),
    }
}

pub open spec fn or_empty(o: Option<Seq<char>>) -> Seq<char> {
    match o {
        Some(t) => t,
        None => Seq::empty(),
    }
}

/// A DID URL as values: the DID (method name, method-specific id), the path,
/// the query and the fragment.
pub type DidUrlView = ((Seq<char>, Seq<char>), Option<Seq<char>>, Option<Seq<char>>, Option<Seq<char>>);

/// `path-abempty` that is not empty: `/`-prefixed segments.
pub open spec fn valid_path_abempty(p: Seq<char>) -> bool {
    p.len() > 0 && p[0] == '/' && is_segments(p)
}

/// A query ends at the fragment delimiter, so it cannot hold one.
pub open spec fn valid_query(q: Seq<char>) -> bool {
    !q.contains('#')
}

pub open spec fn valid_did_url(v: DidUrlView) -> bool {
    &&& valid_method_name(v.0.0)
    &&& valid_did_method_id(v.0.1)
    &&& (v.1 matches Some(p) ==> valid_path_abempty(p))
    &&& (v.2 matches Some(q) ==> valid_query(q))
}

/// `did` + path + `?query` + `#fragment`, each part only where present.
pub open spec fn did_url_text(v: DidUrlView) -> Seq<char> {
    did_text(v.0) + or_empty(v.1) + prefixed('?', v.2) + prefixed('#', v.3)
}

/// Why a text is not a DID URL or relative DID URL.
#[derive(Clone, Copy, Debug, PartialEq, Eq, Structural)]
pub enum UrlError {
    /// The DID part is not a DID.
    Did(DidError),
    /// The path does not start with `/`.
    PathNotAbsolute,
    /// An absolute path starts with `//`.
    DoubleSlash,
    /// A path segment holds a character its production does not allow.
    InvalidSegment,
}

/// What parsing `s` as a DID URL gives. The DID ends at the first `/`, `?`
/// or `#`; the fragment follows the first `#` after it, the query the first
/// `?` before the fragment, and the path is what is left.
pub open spec fn parse_did_url(s: Seq<char>) -> Result<DidUrlView, UrlError> {
    let d = index_of_delim(s);
    match parse_did(s.subrange(0, d)) {
        Err(e) => Err(UrlError::Did(e)),
        Ok(dv) => {
            let f = split_at_char(s.subrange(d, s.len() as int), '#');
            let q = split_at_char(f.0, '?');
            let path = q.0;
            if path.len() == 0 {
                Ok((dv, None, q.1, f.1))
            } else if path[0] != '/' {
                Err(UrlError::PathNotAbsolute)
            } else if !is_segments(path) {
                Err(UrlError::InvalidSegment)
            } else {
                Ok((dv, Some(path), q.1, f.1))
            }
        },
    }
}

/// A DID with an optional path, query and fragment.
#[derive(Debug)]
pub struct DidUrl {
    pub did: Did,
    /// The `path-abempty` of RFC 3986; an empty path is `None`.
    pub path_abempty: Option<String>,
    pub query: Option<String>,
    pub fragment: Option<String>,
}

impl View for DidUrl {
    type V = DidUrlView;

    open spec fn view(&self) -> DidUrlView {
        (
            self.did@,
            opt_string_view(self.path_abempty),
            opt_string_view(self.query),
            opt_string_view(self.fragment),
        )
    }
}

pub open spec fn url_result_view(r: Result<DidUrl, UrlError>) -> Result<DidUrlView, UrlError> {
    match r {
        Ok(u) => Ok(u@),
        Err(e) => Err(e),
    }
}

pub fn opt_string_eq(a: &Option<String>, b: &Option<String>) -> (r: bool)
    ensures
        r == (opt_string_view(*a) == opt_string_view(*b)),
{
    match (a, b) {
        (Some(x), Some(y)) => *x == *y,
        (None, None) => true,
        _ => false,
    }
}

pub fn clone_opt_string(a: &Option<String>) -> (r: Option<String>)
    ensures
        r == *a,
{
    match a {
        Some(x) => Some(x.clone()),
        None => None,
    }
}

fn opt_to_string(o: Option<&str>) -> (r: Option<String>)
    ensures
        opt_string_view(r) == opt_str_view(o),
{
    match o {
        Some(s) => Some(s.to_owned()),
        None => None,
    }
}

impl PartialEq for DidUrl {
    fn eq(&self, other: &DidUrl) -> (r: bool) {
        self.did == other.did && opt_string_eq(&self.path_abempty, &other.path_abempty)
            && opt_string_eq(&self.query, &other.query) && opt_string_eq(
            &self.fragment,
            &other.fragment,
        )
    }
}

impl vstd::std_specs::cmp::PartialEqSpecImpl for DidUrl {
    open spec fn obeys_eq_spec() -> bool {
        true
    }

    open spec fn eq_spec(&self, other: &DidUrl) -> bool {
        self@ == other@
    }
}

impl Eq for DidUrl {

}

impl Clone for DidUrl {
    fn clone(&self) -> (r: DidUrl)
        ensures
            r == *self,
    {
        DidUrl {
            did: self.did.clone(),
            path_abempty: clone_opt_string(&self.path_abempty),
            query: clone_opt_string(&self.query),
            fragment: clone_opt_string(&self.fragment),
        }
    }
}

/// Appends `c` and `t` to `r` where `t` is present.
fn append_prefixed(r: &mut String, c: &str, t: &Option<String>)
    requires
        c@.len() == 1,
    ensures
        final(r)@ == old(r)@ + prefixed(c@[0], opt_string_view(*t)),
{
    match t {
        Some(t) => {
            r.append(c);
            r.append(t.as_str());
            assert(final(r)@ =~= old(r)@ + prefixed(c@[0], opt_string_view(Some(*t))));
        },
        None => {
            assert(final(r)@ =~= old(r)@ + prefixed(c@[0], opt_string_view(None)));
        },
    }
}

impl DidUrl {
    /// Parses a DID URL: a DID, then an optional `path-abempty`, `?query` and `#fragment`.
    pub fn from_str(s: &str) -> (r: Result<DidUrl, UrlError>)
        ensures
            url_result_view(r) == parse_did_url(s@),
            r matches Ok(u) ==> valid_did_url(u@) && did_url_text(u@) == s@,
    {
        proof {
            lemma_parse_did_url_ok(s@);
        }
        let n = s.unicode_len();
        let d = find_delim(s);
        proof {
            lemma_index_of_delim_bounds(s@);
        }
        let did = match Did::from_str(s.substring_char(0, d)) {
            Ok(v) => v,
            Err(e) => return Err(UrlError::Did(e)),
        };
        let rest = s.substring_char(d, n);
        let (before, fragment) = split_once(rest, '#');
        let (path, query) = split_once(before, '?');
        let path_abempty = if path.unicode_len() == 0 {
            None
        } else {
            if path.get_char(0) != '/' {
                return Err(UrlError::PathNotAbsolute);
            }
            if !pchars_ok(path, 0, true) {
                return Err(UrlError::InvalidSegment);
            }
            Some(path.to_owned())
        };
        Ok(DidUrl {
            did,
            path_abempty,
            query: opt_to_string(query),
            fragment: opt_to_string(fragment),
        })
    }

    /// The text of the DID URL: DID, path, `?query`, `#fragment`.
    pub fn to_string(&self) -> (r: String)
        ensures
            r@ == did_url_text(self@),
    {
        let mut r = self.did.to_string();
        match &self.path_abempty {
            Some(p) => r.append(p.as_str()),
            None => {},
        }
        proof {
            reveal_strlit("?");
            reveal_strlit("#");
        }
        append_prefixed(&mut r, "?", &self.query);
        append_prefixed(&mut r, "#", &self.fragment);
        assert(r@ =~= did_url_text(self@));
        r
    }
}

/// A successful parse gives a well-formed DID URL whose text is the input.
pub proof fn lemma_parse_did_url_ok(s: Seq<char>)
    ensures
        parse_did_url(s) matches Ok(v) ==> valid_did_url(v) && did_url_text(v) == s,
{
    if let Ok(v) = parse_did_url(s) {
        lemma_index_of_delim_bounds(s);
        let d = index_of_delim(s);
        let t = s.subrange(0, d);
        lemma_parse_did_ok(t);
        let rest = s.subrange(d, s.len() as int);
        lemma_index_of_bounds(rest, '#');
        let f = split_at_char(rest, '#');
        lemma_index_of_bounds(f.0, '?');
        let q = split_at_char(f.0, '?');
        assert(rest =~= f.0 + prefixed('#', f.1));
        assert(f.0 =~= q.0 + prefixed('?', q.1));
        assert(s =~= t + rest);
        if let Some(qt) = q.1 {
            assert forall|j: int| 0 <= j < qt.len() implies qt[j] != '#' by {
                let k = index_of(f.0, '?');
                assert(qt[j] == f.0[k + 1 + j]);
                assert(f.0[k + 1 + j] == rest[k + 1 + j]);
            }
        }
        assert(did_url_text(v) =~= s);
    }
}

/// Round trip: the text of a well-formed DID URL parses back to it, for
/// every combination of path, query and fragment present or absent.
pub proof fn lemma_did_url_round_trip(v: DidUrlView)
    requires
        valid_did_url(v),
    ensures
        parse_did_url(did_url_text(v)) == Ok::<DidUrlView, UrlError>(v),
{
    let t = did_text(v.0);
    let p = or_empty(v.1);
    let q = prefixed('?', v.2);
    let f = prefixed('#', v.3);
    let s = did_url_text(v);
    assert(s =~= t + p + q + f);
    let n0 = v.0.0.len() as int;
    assert forall|j: int| 0 <= j < t.len() implies !is_url_delim(#[trigger] s[j]) by {
        assert(s[j] == t[j]);
        if j < 4 {
        } else if j < 4 + n0 {
            assert(t[j] == v.0.0[j - 4]);
            assert(is_name_char(v.0.0[j - 4]));
        } else if j == 4 + n0 {
        } else {
            assert(t[j] == v.0.1[j - 5 - n0]);
            assert(is_idchar(v.0.1[j - 5 - n0]) || v.0.1[j - 5 - n0] == ':');
        }
    }
    if t.len() < s.len() {
        if p.len() > 0 {
            assert(s[t.len() as int] == p[0]);
        } else if q.len() > 0 {
            assert(s[t.len() as int] == q[0]);
        } else {
            assert(s[t.len() as int] == f[0]);
        }
    }
    lemma_index_of_delim(s, t.len() as int);
    assert(s.subrange(0, t.len() as int) =~= t);
    lemma_did_round_trip(v.0);
    let rest = s.subrange(t.len() as int, s.len() as int);
    assert(rest =~= p + q + f);
    if let Some(pt) = v.1 {
        lemma_pchars_no_query_or_fragment(pt, 0, true);
    }
    let pq = p + q;
    assert forall|j: int| 0 <= j < pq.len() implies rest[j] != '#' by {
        assert(rest[j] == pq[j]);
        if j >= p.len() && j > p.len() {
            assert(pq[j] == v.2->0[j - p.len() - 1]);
            assert(!v.2->0.contains('#'));
        }
    }
    lemma_index_of(rest, '#', pq.len() as int);
    assert(rest.subrange(0, pq.len() as int) =~= pq);
    if let Some(ft) = v.3 {
        assert(rest.subrange(pq.len() as int + 1, rest.len() as int) =~= ft);
    }
    assert(split_at_char(rest, '#') == (pq, v.3));
    assert forall|j: int| 0 <= j < p.len() implies pq[j] != '?' by {
        assert(pq[j] == p[j]);
    }
    lemma_index_of(pq, '?', p.len() as int);
    assert(pq.subrange(0, p.len() as int) =~= p);
    if let Some(qt) = v.2 {
        assert(pq.subrange(p.len() as int + 1, pq.len() as int) =~= qt);
    }
    assert(split_at_char(pq, '?') == (p, v.2));
    if v.1 is None {
        assert(p.len() == 0);
    }
}

/// A relative DID URL path as a value.
pub enum RelativePathView {
    Absolute(Seq<char>),
    NoScheme(Seq<char>),
    Empty,
}

pub open spec fn relative_path_text(v: RelativePathView) -> Seq<char> {
    match v {
        RelativePathView::Absolute(p) => p,
        RelativePathView::NoScheme(p) => p,
        RelativePathView::Empty => Seq::empty(),
    }
}

/// What parsing `p` as a relative path gives. A leading `/` makes an
/// absolute path, whose second character may not be `/`; otherwise the first
/// segment may not be empty or hold a colon. The other segments are `segment`s.
pub open spec fn parse_relative_path(p: Seq<char>) -> Result<RelativePathView, UrlError> {
    if p.len() == 0 {
        Ok(RelativePathView::Empty)
    } else if p[0] == '/' {
        if p.len() >= 2 && p[1] == '/' {
            Err(UrlError::DoubleSlash)
        } else if !is_segments(p.subrange(1, p.len() as int)) {
            Err(UrlError::InvalidSegment)
        } else {
            Ok(RelativePathView::Absolute(p))
        }
    } else {
        let k = index_of(p, '/');
        if !is_segment_nz_nc(p.subrange(0, k)) || !is_segments(p.subrange(k, p.len() as int)) {
            Err(UrlError::InvalidSegment)
        } else {
            Ok(RelativePathView::NoScheme(p))
        }
    }
}

/// The path of a relative DID URL.
#[derive(Debug)]
pub enum RelativeDidUrlPath {
    /// `path-absolute` of RFC 3986: `/` and segments, the first one not empty.
    Absolute(String),
    /// `path-noscheme` of RFC 3986: a first segment without a colon, then segments.
    NoScheme(String),
    /// `path-empty` of RFC 3986.
    Empty,
}

impl View for RelativeDidUrlPath {
    type V = RelativePathView;

    open spec fn view(&self) -> RelativePathView {
        match self {
            RelativeDidUrlPath::Absolute(p) => RelativePathView::Absolute(p@),
            RelativeDidUrlPath::NoScheme(p) => RelativePathView::NoScheme(p@),
            RelativeDidUrlPath::Empty => RelativePathView::Empty,
        }
    }
}

pub open spec fn relative_path_result_view(r: Result<RelativeDidUrlPath, UrlError>) -> Result<
    RelativePathView,
    UrlError,
> {
    match r {
        Ok(p) => Ok(p@),
        Err(e) => Err(e),
    }
}

impl PartialEq for RelativeDidUrlPath {
    fn eq(&self, other: &RelativeDidUrlPath) -> (r: bool) {
        match (self, other) {
            (RelativeDidUrlPath::Absolute(a), RelativeDidUrlPath::Absolute(b)) => *a == *b,
            (RelativeDidUrlPath::NoScheme(a), RelativeDidUrlPath::NoScheme(b)) => *a == *b,
            (RelativeDidUrlPath::Empty, RelativeDidUrlPath::Empty) => true,
            _ => false,
        }
    }
}

impl vstd::std_specs::cmp::PartialEqSpecImpl for RelativeDidUrlPath {
    open spec fn obeys_eq_spec() -> bool {
        true
    }

    open spec fn eq_spec(&self, other: &RelativeDidUrlPath) -> bool {
        self@ == other@
    }
}

impl Eq for RelativeDidUrlPath {

}

impl Clone for RelativeDidUrlPath {
    fn clone(&self) -> (r: RelativeDidUrlPath)
        ensures
            r == *self,
    {
        match self {
            RelativeDidUrlPath::Absolute(p) => RelativeDidUrlPath::Absolute(p.clone()),
            RelativeDidUrlPath::NoScheme(p) => RelativeDidUrlPath::NoScheme(p.clone()),
            RelativeDidUrlPath::Empty => RelativeDidUrlPath::Empty,
        }
    }
}

impl RelativeDidUrlPath {
    /// Classifies and checks a relative path by its first character.
    pub fn from_str(path: &str) -> (r: Result<RelativeDidUrlPath, UrlError>)
        ensures
            relative_path_result_view(r) == parse_relative_path(path@),
    {
        let n = path.unicode_len();
        if n == 0 {
            return Ok(RelativeDidUrlPath::Empty);
        }
        if path.get_char(0) == '/' {
            if n >= 2 && path.get_char(1) == '/' {
                return Err(UrlError::DoubleSlash);
            }
            if !pchars_ok(path.substring_char(1, n), 0, true) {
                return Err(UrlError::InvalidSegment);
            }
            Ok(RelativeDidUrlPath::Absolute(path.to_owned()))
        } else {
            let k = find_char(path, '/');
            proof {
                lemma_index_of_bounds(path@, '/');
            }
            if !is_segment(path.substring_char(0, k), Segment::NzNc) || !pchars_ok(
                path.substring_char(k, n),
                0,
                true,
            ) {
                return Err(UrlError::InvalidSegment);
            }
            Ok(RelativeDidUrlPath::NoScheme(path.to_owned()))
        }
    }

    /// The path text.
    pub fn to_string(&self) -> (r: String)
        ensures
            r@ == relative_path_text(self@),
    {
        match self {
            RelativeDidUrlPath::Absolute(p) => p.clone(),
            RelativeDidUrlPath::NoScheme(p) => p.clone(),
            RelativeDidUrlPath::Empty => String::new(),
        }
    }
}

/// A relative DID URL as values: path, query, fragment.
pub type RelativeDidUrlView = (RelativePathView, Option<Seq<char>>, Option<Seq<char>>);

/// What parsing `s` as a relative DID URL gives: the fragment follows the
/// first `#`, the query the first `?` before it, and the rest is the path.
pub open spec fn parse_relative_did_url(s: Seq<char>) -> Result<RelativeDidUrlView, UrlError> {
    let f = split_at_char(s, '#');
    let q = split_at_char(f.0, '?');
    match parse_relative_path(q.0) {
        Ok(p) => Ok((p, q.1, f.1)),
        Err(e) => Err(e),
    }
}

/// path + `?query` + `#fragment`, each part only where present.
pub open spec fn relative_did_url_text(v: RelativeDidUrlView) -> Seq<char> {
    relative_path_text(v.0) + prefixed('?', v.1) + prefixed('#', v.2)
}

/// A reference relative to the DID of the document it stands in.
#[derive(Debug)]
pub struct RelativeDidUrl {
    pub path: RelativeDidUrlPath,
    pub query: Option<String>,
    pub fragment: Option<String>,
}

impl View for RelativeDidUrl {
    type V = RelativeDidUrlView;

    open spec fn view(&self) -> RelativeDidUrlView {
        (self.path@, opt_string_view(self.query), opt_string_view(self.fragment))
    }
}

pub open spec fn relative_result_view(r: Result<RelativeDidUrl, UrlError>) -> Result<
    RelativeDidUrlView,
    UrlError,
> {
    match r {
        Ok(u) => Ok(u@),
        Err(e) => Err(e),
    }
}

impl PartialEq for RelativeDidUrl {
    fn eq(&self, other: &RelativeDidUrl) -> (r: bool) {
        self.path == other.path && opt_string_eq(&self.query, &other.query) && opt_string_eq(
            &self.fragment,
            &other.fragment,
        )
    }
}

impl vstd::std_specs::cmp::PartialEqSpecImpl for RelativeDidUrl {
    open spec fn obeys_eq_spec() -> bool {
        true
    }

    open spec fn eq_spec(&self, other: &RelativeDidUrl) -> bool {
        self@ == other@
    }
}

impl Eq for RelativeDidUrl {

}

impl Clone for RelativeDidUrl {
    fn clone(&self) -> (r: RelativeDidUrl)
        ensures
            r == *self,
    {
        RelativeDidUrl {
            path: self.path.clone(),
            query: clone_opt_string(&self.query),
            fragment: clone_opt_string(&self.fragment),
        }
    }
}

impl RelativeDidUrl {
    /// Parses a relative DID URL: a relative path, then `?query` and `#fragment`.
    pub fn from_str(s: &str) -> (r: Result<RelativeDidUrl, UrlError>)
        ensures
            relative_result_view(r) == parse_relative_did_url(s@),
    {
        let (before, fragment) = split_once(s, '#');
        let (path, query) = split_once(before, '?');
        let path = match RelativeDidUrlPath::from_str(path) {
            Ok(p) => p,
            Err(e) => return Err(e),
        };
        Ok(RelativeDidUrl { path, query: opt_to_string(query), fragment: opt_to_string(fragment) })
    }

    /// The text: path, `?query`, `#fragment`.
    pub fn to_string(&self) -> (r: String)
        ensures
            r@ == relative_did_url_text(self@),
    {
        let mut r = self.path.to_string();
        proof {
            reveal_strlit("?");
            reveal_strlit("#");
        }
        append_prefixed(&mut r, "?", &self.query);
        append_prefixed(&mut r, "#", &self.fragment);
        assert(r@ =~= relative_did_url_text(self@));
        r
    }
}

impl DidUrl {
    /// The same reference without its DID: path, query and fragment, where
    /// the path is also a relative path.
    pub fn to_relative(&self) -> (r: Option<RelativeDidUrl>)
        ensures
            r is Some <==> parse_relative_path(or_empty(self@.1)) is Ok,
            r matches Some(u) ==> Ok::<RelativePathView, UrlError>(u.path@) == parse_relative_path(or_empty(self@.1)) && u@.1
                == self@.2 && u@.2 == self@.3,
    {
        let path = match &self.path_abempty {
            Some(p) => RelativeDidUrlPath::from_str(p.as_str()),
            None => RelativeDidUrlPath::from_str(""),
        };
        proof {
            reveal_strlit("");
        }
        match path {
            Ok(path) => Some(
                RelativeDidUrl {
                    path,
                    query: clone_opt_string(&self.query),
                    fragment: clone_opt_string(&self.fragment),
                },
            ),
            Err(_) => None,
        }
    }
}

/// A well-formed DID URL has a relative form exactly when its path does not
/// start with `//`: `path-abempty` allows that start, `path-absolute` does not.
pub proof fn lemma_to_relative_defined(v: DidUrlView)
    requires
        valid_did_url(v),
    ensures
        parse_relative_path(or_empty(v.1)) is Ok <==> !(v.1 matches Some(p) && p.len() >= 2
            && p[1] == '/'),
{
    if let Some(p) = v.1 {
        if !(p.len() >= 2 && p[1] == '/') {
            assert(pchars_from(p, 1, true));
            lemma_pchars_shift(p, 1, 0, true);
        }
    }
}

/// A relative path value of the shape its variant names: what parsing its
/// text gives back.
pub open spec fn valid_relative_path(v: RelativePathView) -> bool {
    match v {
        RelativePathView::Empty => true,
        RelativePathView::Absolute(p) => p.len() > 0 && p[0] == '/' && !(p.len() >= 2 && p[1]
            == '/') && is_segments(p.subrange(1, p.len() as int)),
        RelativePathView::NoScheme(p) => p.len() > 0 && p[0] != '/' && is_segment_nz_nc(
            p.subrange(0, index_of(p, '/')),
        ) && is_segments(p.subrange(index_of(p, '/'), p.len() as int)),
    }
}

pub open spec fn valid_relative_did_url(v: RelativeDidUrlView) -> bool {
    &&& valid_relative_path(v.0)
    &&& (v.1 matches Some(q) ==> valid_query(q))
}

/// The text of a well-formed relative path holds no `?` and no `#`.
proof fn lemma_relative_path_text_plain(v: RelativePathView)
    requires
        valid_relative_path(v),
    ensures
        forall|j: int|
            0 <= j < relative_path_text(v).len() ==> relative_path_text(v)[j] != '?'
                && relative_path_text(v)[j] != '#',
{
    match v {
        RelativePathView::Empty => {},
        RelativePathView::Absolute(p) => {
            let t = p.subrange(1, p.len() as int);
            lemma_pchars_no_query_or_fragment(t, 0, true);
            assert forall|j: int| 0 <= j < p.len() implies p[j] != '?' && p[j] != '#' by {
                if j > 0 {
                    assert(p[j] == t[j - 1]);
                }
            }
        },
        RelativePathView::NoScheme(p) => {
            let k = index_of(p, '/');
            lemma_index_of_bounds(p, '/');
            let a = p.subrange(0, k);
            let b = p.subrange(k, p.len() as int);
            lemma_pchars_no_query_or_fragment(a, 0, false);
            lemma_pchars_no_query_or_fragment(b, 0, true);
            assert forall|j: int| 0 <= j < p.len() implies p[j] != '?' && p[j] != '#' by {
                if j < k {
                    assert(p[j] == a[j]);
                } else {
                    assert(p[j] == b[j - k]);
                }
            }
        },
    }
}

/// Round trip: the text of a well-formed relative DID URL parses back to it.
pub proof fn lemma_relative_did_url_round_trip(v: RelativeDidUrlView)
    requires
        valid_relative_did_url(v),
    ensures
        parse_relative_did_url(relative_did_url_text(v)) == Ok::<RelativeDidUrlView, UrlError>(v),
{
    let t = relative_path_text(v.0);
    let q = prefixed('?', v.1);
    let f = prefixed('#', v.2);
    let s = relative_did_url_text(v);
    assert(s =~= t + q + f);
    lemma_relative_path_text_plain(v.0);
    let tq = t + q;
    assert forall|j: int| 0 <= j < tq.len() implies s[j] != '#' by {
        assert(s[j] == tq[j]);
        if j > t.len() {
            assert(tq[j] == v.1->0[j - t.len() - 1]);
            assert(!v.1->0.contains('#'));
        }
    }
    if v.2 is Some {
        assert(s[tq.len() as int] == '#');
    }
    lemma_index_of(s, '#', tq.len() as int);
    assert(s.subrange(0, tq.len() as int) =~= tq);
    if let Some(ft) = v.2 {
        assert(s.subrange(tq.len() as int + 1, s.len() as int) =~= ft);
    }
    assert(split_at_char(s, '#') == (tq, v.2));
    assert forall|j: int| 0 <= j < t.len() implies tq[j] != '?' by {
        assert(tq[j] == t[j]);
    }
    lemma_index_of(tq, '?', t.len() as int);
    assert(tq.subrange(0, t.len() as int) =~= t);
    if let Some(qt) = v.1 {
        assert(tq.subrange(t.len() as int + 1, tq.len() as int) =~= qt);
    }
    assert(split_at_char(tq, '?') == (t, v.1));
    match v.0 {
        RelativePathView::Empty => {
            assert(t.len() == 0);
        },
        _ => {},
    }
}

} // verus!
