//! Character classes and segment grammar shared by the DID and DID URL parsers.

use vstd::prelude::*;
use vstd::string::*;

verus! {

pub open spec fn is_ascii_lower(c: char) -> bool {
    'a' <= c && c <= 'z'
}

pub open spec fn is_ascii_upper(c: char) -> bool {
    'A' <= c && c <= 'Z'
}

pub open spec fn is_ascii_digit(c: char) -> bool {
    '0' <= c && c <= '9'
}

pub open spec fn is_ascii_alnum(c: char) -> bool {
    is_ascii_lower(c) || is_ascii_upper(c) || is_ascii_digit(c)
}

pub open spec fn is_hex_digit(c: char) -> bool {
    is_ascii_digit(c) || ('a' <= c && c <= 'f') || ('A' <= c && c <= 'F')
}

/// `unreserved` of RFC 3986.
pub open spec fn is_unreserved(c: char) -> bool {
    is_ascii_alnum(c) || c == '-' || c == '.' || c == '_' || c == '~'
}

/// `sub-delims` of RFC 3986.
pub open spec fn is_sub_delim(c: char) -> bool {
    c == '!' || c == '$' || c == '&' || c == '\'' || c == '(' || c == ')' || c == '*' || c == '+'
        || c == ',' || c == ';' || c == '='
}

/// A `pchar` of RFC 3986 that stands for itself (not part of a `%` triplet).
pub open spec fn is_pchar_plain(c: char) -> bool {
    is_unreserved(c) || is_sub_delim(c) || c == ':' || c == '@'
}

/// `s[i..]` is a sequence of `pchar`s: plain characters and `%HH` triplets,
/// together with `/` where `slash` is set.
pub open spec fn pchars_from(s: Seq<char>, i: int, slash: bool) -> bool
    decreases s.len() - i,
{
    if i < 0 || i >= s.len() {
        true
    } else if is_pchar_plain(s[i]) || (slash && s[i] == '/') {
        pchars_from(s, i + 1, slash)
    } else {
        s[i] == '%' && i + 2 < s.len() && is_hex_digit(s[i + 1]) && is_hex_digit(s[i + 2])
            && pchars_from(s, i + 3, slash)
    }
}

/// `segment = *pchar` of RFC 3986.
pub open spec fn is_segment_base(s: Seq<char>) -> bool {
    pchars_from(s, 0, false)
}

/// `segment-nz-nc` of RFC 3986: a non-empty segment without a colon.
pub open spec fn is_segment_nz_nc(s: Seq<char>) -> bool {
    s.len() > 0 && !s.contains(':') && pchars_from(s, 0, false)
}

/// `*( "/" segment )` and the like: segments of `pchar`s separated by `/`.
pub open spec fn is_segments(s: Seq<char>) -> bool {
    pchars_from(s, 0, true)
}

/// Which production of RFC 3986 a segment is checked against.
#[derive(Clone, Copy, Debug, PartialEq, Eq, Structural)]
pub enum Segment {
    /// `segment`: any number of `pchar`s.
    Base,
    /// `segment-nz-nc`: at least one `pchar`, none of them a colon.
    NzNc,
}

pub open spec fn segment_matches(s: Seq<char>, kind: Segment) -> bool {
    match kind {
        Segment::Base => is_segment_base(s),
        Segment::NzNc => is_segment_nz_nc(s),
    }
}

/// Index of the first `c` in `s`, or `s.len()` when there is none.
pub open spec fn index_of(s: Seq<char>, c: char) -> int
    decreases s.len(),
{
    if s.len() == 0 {
        0
    } else if s[0] == c {
        0
    } else {
        1 + index_of(s.drop_first(), c)
    }
}

pub proof fn lemma_index_of(s: Seq<char>, c: char, i: int)
    requires
        0 <= i <= s.len(),
        forall|j: int| 0 <= j < i ==> s[j] != c,
        i == s.len() || s[i] == c,
    ensures
        index_of(s, c) == i,
    decreases i,
{
    if i > 0 {
        lemma_index_of(s.drop_first(), c, i - 1);
    }
}

pub proof fn lemma_index_of_bounds(s: Seq<char>, c: char)
    ensures
        0 <= index_of(s, c) <= s.len(),
        forall|j: int| 0 <= j < index_of(s, c) ==> s[j] != c,
        index_of(s, c) < s.len() ==> s[index_of(s, c)] == c,
    decreases s.len(),
{
    if s.len() > 0 && s[0] != c {
        lemma_index_of_bounds(s.drop_first(), c);
        assert forall|j: int| 0 <= j < index_of(s, c) implies s[j] != c by {
            if j > 0 {
                assert(s[j] == s.drop_first()[j - 1]);
            }
        }
    }
}

/// Index of the first `c` in `s`, or the length of `s` when there is none.
pub fn find_char(s: &str, c: char) -> (r: usize)
    ensures
        r == index_of(s@, c),
{
    let n = s.unicode_len();
    let mut i: usize = 0;
    while i < n
        invariant
            n == s@.len(),
            i <= n,
            forall|j: int| 0 <= j < i ==> s@[j] != c,
        decreases n - i,
    {
        if s.get_char(i) == c {
            proof {
                lemma_index_of(s@, c, i as int);
            }
            return i;
        }
        i = i + 1;
    }
    proof {
        lemma_index_of(s@, c, i as int);
    }
    i
}

fn is_hex_char(c: char) -> (r: bool)
    ensures
        r == is_hex_digit(c),
{
    ('0' <= c && c <= '9') || ('a' <= c && c <= 'f') || ('A' <= c && c <= 'F')
}

fn is_pchar_plain_char(c: char) -> (r: bool)
    ensures
        r == is_pchar_plain(c),
{
    ('a' <= c && c <= 'z') || ('A' <= c && c <= 'Z') || ('0' <= c && c <= '9') || c == '-'
        || c == '.' || c == '_' || c == '~' || c == '!' || c == '$' || c == '&' || c == '\''
        || c == '(' || c == ')' || c == '*' || c == '+' || c == ',' || c == ';' || c == '='
        || c == ':' || c == '@'
}

/// Whether `s[from..]` is made of `pchar`s, and of `/` where `slash` is set.
pub fn pchars_ok(s: &str, from: usize, slash: bool) -> (r: bool)
    requires
        from <= s@.len(),
    ensures
        r == pchars_from(s@, from as int, slash),
{
    let n = s.unicode_len();
    let mut i: usize = from;
    while i < n
        invariant
            n == s@.len(),
            from <= i <= n,
            pchars_from(s@, from as int, slash) == pchars_from(s@, i as int, slash),
        decreases n - i,
    {
        let c = s.get_char(i);
        if is_pchar_plain_char(c) || (slash && c == '/') {
            i = i + 1;
        } else if c == '%' && n - i > 2 && is_hex_char(s.get_char(i + 1)) && is_hex_char(
            s.get_char(i + 2),
        ) {
            i = i + 3;
        } else {
            return false;
        }
    }
    true
}

/// Whether `text` matches the segment production `kind`.
pub fn is_segment(text: &str, kind: Segment) -> (r: bool)
    ensures
        r == segment_matches(text@, kind),
{
    match kind {
        Segment::Base => pchars_ok(text, 0, false),
        Segment::NzNc => {
            let n = text.unicode_len();
            if n == 0 {
                return false;
            }
            let k = find_char(text, ':');
            proof {
                lemma_index_of_bounds(text@, ':');
            }
            if k < n {
                assert(text@.contains(':'));
                return false;
            }
            assert(!text@.contains(':'));
            pchars_ok(text, 0, false)
        },
    }
}

/// The characters that end the DID part of a DID URL.
pub open spec fn is_url_delim(c: char) -> bool {
    c == '/' || c == '?' || c == '#'
}

/// Index of the first `/`, `?` or `#` in `s`, or `s.len()` when there is none.
pub open spec fn index_of_delim(s: Seq<char>) -> int
    decreases s.len(),
{
    if s.len() == 0 {
        0
    } else if is_url_delim(s[0]) {
        0
    } else {
        1 + index_of_delim(s.drop_first())
    }
}

pub proof fn lemma_index_of_delim(s: Seq<char>, i: int)
    requires
        0 <= i <= s.len(),
        forall|j: int| 0 <= j < i ==> !is_url_delim(s[j]),
        i == s.len() || is_url_delim(s[i]),
    ensures
        index_of_delim(s) == i,
    decreases i,
{
    if i > 0 {
        lemma_index_of_delim(s.drop_first(), i - 1);
    }
}

pub proof fn lemma_index_of_delim_bounds(s: Seq<char>)
    ensures
        0 <= index_of_delim(s) <= s.len(),
    decreases s.len(),
{
    if s.len() > 0 && !is_url_delim(s[0]) {
        lemma_index_of_delim_bounds(s.drop_first());
    }
}

/// `s` cut at its first `c`: the part before it, and the part after it if
/// there is a `c`.
pub open spec fn split_at_char(s: Seq<char>, c: char) -> (Seq<char>, Option<Seq<char>>) {
    let k = index_of(s, c);
    if k < s.len() {
        (s.subrange(0, k), Some(s.subrange(k + 1, s.len() as int)))
    } else {
        (s, None)
    }
}

/// Index of the first `/`, `?` or `#` in `s`, or the length of `s` when there is none.
pub fn find_delim(s: &str) -> (r: usize)
    ensures
        r == index_of_delim(s@),
{
    let n = s.unicode_len();
    let mut i: usize = 0;
    while i < n
        invariant
            n == s@.len(),
            i <= n,
            forall|j: int| 0 <= j < i ==> !is_url_delim(s@[j]),
        decreases n - i,
    {
        let c = s.get_char(i);
        if c == '/' || c == '?' || c == '#' {
            proof {
                lemma_index_of_delim(s@, i as int);
            }
            return i;
        }
        i = i + 1;
    }
    proof {
        lemma_index_of_delim(s@, i as int);
    }
    i
}

/// Cuts `s` at its first `c`.
pub fn split_once<'a>(s: &'a str, c: char) -> (r: (&'a str, Option<&'a str>))
    ensures
        split_at_char(s@, c) == (r.0@, opt_str_view(r.1)),
{
    let n = s.unicode_len();
    let k = find_char(s, c);
    proof {
        lemma_index_of_bounds(s@, c);
    }
    if k < n {
        (s.substring_char(0, k), Some(s.substring_char(k + 1, n)))
    } else {
        (s, None)
    }
}

pub open spec fn opt_str_view(o: Option<&str>) -> Option<Seq<char>> {
    match o {
        Some(s) => Some(s@),
        None => None,
    }
}

/// Text made of segments holds no `?` and no `#`.
pub proof fn lemma_pchars_no_query_or_fragment(s: Seq<char>, i: int, slash: bool)
    requires
        0 <= i,
        pchars_from(s, i, slash),
    ensures
        forall|j: int| i <= j < s.len() ==> s[j] != '?' && s[j] != '#',
    decreases s.len() - i,
{
    if i < s.len() {
        if is_pchar_plain(s[i]) || (slash && s[i] == '/') {
            lemma_pchars_no_query_or_fragment(s, i + 1, slash);
        } else {
            lemma_pchars_no_query_or_fragment(s, i + 3, slash);
        }
    }
}

/// Scanning a suffix from its start is scanning the whole from the cut.
pub proof fn lemma_pchars_shift(s: Seq<char>, k: int, j: int, slash: bool)
    requires
        0 <= k <= s.len(),
        0 <= j,
        pchars_from(s, k + j, slash),
    ensures
        pchars_from(s.subrange(k, s.len() as int), j, slash),
    decreases s.len() - k - j,
{
    let t = s.subrange(k, s.len() as int);
    if j < t.len() {
        assert(t[j] == s[k + j]);
        if is_pchar_plain(s[k + j]) || (slash && s[k + j] == '/') {
            lemma_pchars_shift(s, k, j + 1, slash);
        } else {
            assert(t[j + 1] == s[k + j + 1]);
            assert(t[j + 2] == s[k + j + 2]);
            lemma_pchars_shift(s, k, j + 3, slash);
        }
    }
}

} // verus!
