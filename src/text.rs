//! Character-level helpers shared by the parsers of this crate.
use vstd::prelude::*;

verus! {

/// The Unicode `White_Space` property, which `char::is_whitespace` reports.
pub open spec fn is_white_space_spec(c: char) -> bool {
    let u = c as u32;
    (0x9 <= u && u <= 0xd) || u == 0x20 || u == 0x85 || u == 0xa0 || u == 0x1680 || (0x2000 <= u
        && u <= 0x200a) || u == 0x2028 || u == 0x2029 || u == 0x202f || u == 0x205f || u == 0x3000
}

pub open spec fn is_ascii_letter(c: char) -> bool {
    let u = c as u32;
    (0x41 <= u && u <= 0x5a) || (0x61 <= u && u <= 0x7a)
}

pub open spec fn is_ascii_digit(c: char) -> bool {
    let u = c as u32;
    0x30 <= u && u <= 0x39
}

/// Whitespace as `char::is_whitespace` decides it.
pub fn is_white_space(c: char) -> (r: bool)
    ensures
        r == is_white_space_spec(c),
{
    let u = c as u32;
    (0x9 <= u && u <= 0xd) || u == 0x20 || u == 0x85 || u == 0xa0 || u == 0x1680 || (0x2000 <= u
        && u <= 0x200a) || u == 0x2028 || u == 0x2029 || u == 0x202f || u == 0x205f || u == 0x3000
}


/// `s` without its leading whitespace.
pub open spec fn trim_start_spec(s: Seq<char>) -> Seq<char>
    decreases s.len(),
{
    if s.len() > 0 && is_white_space_spec(s[0]) {
        trim_start_spec(s.drop_first())
    } else {
        s
    }
}

/// `s` without its trailing whitespace.
pub open spec fn trim_end_spec(s: Seq<char>) -> Seq<char>
    decreases s.len(),
{
    if s.len() > 0 && is_white_space_spec(s.last()) {
        trim_end_spec(s.drop_last())
    } else {
        s
    }
}

/// `s` without leading and trailing whitespace, as `str::trim` gives it.
pub open spec fn trim_spec(s: Seq<char>) -> Seq<char> {
    trim_end_spec(trim_start_spec(s))
}

/// The lowercase form of a string, as `str::to_lowercase` computes it from
/// the Unicode case tables.
pub uninterp spec fn lowercase_of(s: Seq<char>) -> Seq<char>;

/// Whether a character is alphabetic or numeric in the Unicode sense.
pub uninterp spec fn alphanumeric(c: char) -> bool;

/// Relies on `str::chars`, collected: the characters of `s` in order.
#[verifier::external_body]
pub(crate) fn chars_of(s: &str) -> (r: Vec<char>)
    ensures
        r@ == s@,
{
    s.chars().collect()
}

/// Relies on `String: FromIterator<char>`: a string of exactly these characters.
#[verifier::external_body]
pub(crate) fn string_of(v: &Vec<char>) -> (r: String)
    ensures
        r@ == v@,
{
    v.iter().collect()
}

/// Relies on `str::to_lowercase`: the result depends on the characters alone.
#[verifier::external_body]
pub(crate) fn to_lowercase(s: &str) -> (r: String)
    ensures
        r@ == lowercase_of(s@),
{
    s.to_lowercase()
}

/// Relies on `char::is_alphanumeric`.
#[verifier::external_body]
pub(crate) fn is_alphanumeric(c: char) -> (r: bool)
    ensures
        r == alphanumeric(c),
{
    c.is_alphanumeric()
}

/// Index of the first character that is not whitespace (or the length).
fn trim_start_index(v: &Vec<char>) -> (r: usize)
    ensures
        r <= v@.len(),
        trim_start_spec(v@) == v@.subrange(r as int, v@.len() as int),
{
    let n = v.len();
    let mut i: usize = 0;
    assert(v@.subrange(0, n as int) == v@);
    while i < n && is_white_space(v[i])
        invariant
            i <= n,
            n == v@.len(),
            trim_start_spec(v@) == trim_start_spec(v@.subrange(i as int, n as int)),
        decreases n - i,
    {
        assert(v@.subrange(i as int, n as int).drop_first() == v@.subrange(i + 1, n as int));
        i = i + 1;
    }
    i
}

/// `s` without leading and trailing whitespace.
pub fn trim(s: &str) -> (r: String)
    ensures
        r@ == trim_spec(s@),
{
    let v = chars_of(s);
    let start = trim_start_index(&v);
    let n = v.len();
    let mut end: usize = n;
    let ghost t = v@.subrange(start as int, n as int);
    assert(t.subrange(0, (end - start) as int) == t);
    while end > start && is_white_space(v[end - 1])
        invariant
            start <= end <= n,
            n == v@.len(),
            t == v@.subrange(start as int, n as int),
            trim_end_spec(t) == trim_end_spec(v@.subrange(start as int, end as int)),
        decreases end,
    {
        assert(v@.subrange(start as int, end as int).drop_last() == v@.subrange(
            start as int,
            end - 1,
        ));
        end = end - 1;
    }
    let mut out: Vec<char> = Vec::new();
    let mut k: usize = start;
    while k < end
        invariant
            start <= k <= end <= n,
            n == v@.len(),
            out@ == v@.subrange(start as int, k as int),
        decreases end - k,
    {
        out.push(v[k]);
        assert(out@ == v@.subrange(start as int, k + 1));
        k = k + 1;
    }
    string_of(&out)
}

/// The two strings hold the same characters.
pub fn same_text(a: &str, b: &str) -> (r: bool)
    ensures
        r == (a@ == b@),
{
    a.to_owned() == b.to_owned()
}

/// `s` without prefix `p`, when it starts with it.
pub open spec fn strip_prefix_spec(s: Seq<char>, p: Seq<char>) -> Option<Seq<char>> {
    if p.len() <= s.len() && s.take(p.len() as int) == p {
        Some(s.skip(p.len() as int))
    } else {
        None
    }
}

/// The characters of `s` after prefix `p`, when `s` starts with it.
pub fn strip_prefix(s: &str, p: &str) -> (r: Option<Vec<char>>)
    ensures
        r matches Some(v) ==> strip_prefix_spec(s@, p@) == Some(v@),
        r is None ==> strip_prefix_spec(s@, p@) is None,
{
    let v = chars_of(s);
    let w = chars_of(p);
    if w.len() > v.len() {
        return None;
    }
    let mut i: usize = 0;
    while i < w.len()
        invariant
            v@ == s@,
            w@ == p@,
            w@.len() <= v@.len(),
            i <= w@.len(),
            forall|j: int| 0 <= j < i ==> v@[j] == w@[j],
        decreases w@.len() - i,
    {
        if v[i] != w[i] {
            assert(v@.take(w@.len() as int)[i as int] != w@[i as int]);
            return None;
        }
        i = i + 1;
    }
    assert(v@.take(w@.len() as int) =~= w@);
    let mut out: Vec<char> = Vec::new();
    let mut k: usize = w.len();
    while k < v.len()
        invariant
            v@ == s@,
            w@ == p@,
            w@.len() <= k <= v@.len(),
            out@ == v@.subrange(w@.len() as int, k as int),
        decreases v@.len() - k,
    {
        out.push(v[k]);
        k = k + 1;
        assert(out@ =~= v@.subrange(w@.len() as int, k as int));
    }
    assert(out@ =~= s@.skip(p@.len() as int));
    Some(out)
}

} // verus!
