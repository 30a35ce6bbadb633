//! Recognisers for the references that GitHub text carries to work items:
//! display ids such as `BAA-42` and closing phrases such as `fixes #12`.
//!
//! Letters and digits are ASCII; letters match in either case. Scanning goes
//! left to right and never overlaps two matches, as a leftmost-first search
//! that resumes after each match does.
use vstd::prelude::*;
use crate::text::{is_ascii_digit, is_ascii_letter, is_white_space, is_white_space_spec};

verus! {

/// Number of consecutive ASCII letters in `s` from index `i`.
pub open spec fn letter_run(s: Seq<char>, i: int) -> nat
    decreases s.len() - i,
{
    if 0 <= i < s.len() && is_ascii_letter(s[i]) {
        1 + letter_run(s, i + 1)
    } else {
        0
    }
}

/// Number of consecutive ASCII digits in `s` from index `i`.
pub open spec fn digit_run(s: Seq<char>, i: int) -> nat
    decreases s.len() - i,
{
    if 0 <= i < s.len() && is_ascii_digit(s[i]) {
        1 + digit_run(s, i + 1)
    } else {
        0
    }
}

/// Number of consecutive whitespace characters in `s` from index `i`.
pub open spec fn ws_run(s: Seq<char>, i: int) -> nat
    decreases s.len() - i,
{
    if 0 <= i < s.len() && is_white_space_spec(s[i]) {
        1 + ws_run(s, i + 1)
    } else {
        0
    }
}

pub proof fn lemma_digit_run_bound(s: Seq<char>, i: int)
    requires
        0 <= i <= s.len(),
    ensures
        i + digit_run(s, i) <= s.len(),
    decreases s.len() - i,
{
    if i < s.len() {
        lemma_digit_run_bound(s, i + 1);
    }
}

pub proof fn lemma_letter_run_bound(s: Seq<char>, i: int)
    requires
        0 <= i <= s.len(),
    ensures
        i + letter_run(s, i) <= s.len(),
    decreases s.len() - i,
{
    if i < s.len() {
        lemma_letter_run_bound(s, i + 1);
    }
}

pub open spec fn ascii_upper(c: char) -> char {
    if 0x61 <= c as u32 && c as u32 <= 0x7a {
        ((c as u32 - 32) as u8) as char
    } else {
        c
    }
}

pub open spec fn ascii_lower(c: char) -> char {
    if 0x41 <= c as u32 && c as u32 <= 0x5a {
        ((c as u32 + 32) as u8) as char
    } else {
        c
    }
}

/// A display id starts at `i`: 2 to 10 letters, a dash, one or more digits.
pub open spec fn id_match_at(s: Seq<char>, i: int) -> bool {
    let l = letter_run(s, i);
    &&& 2 <= l <= 10
    &&& i + l < s.len()
    &&& s[i + l] == '-'
    &&& digit_run(s, i + l + 1) >= 1
}

/// Where the display id that starts at `i` ends.
pub open spec fn id_match_end(s: Seq<char>, i: int) -> int {
    let l = letter_run(s, i);
    i + l + 1 + digit_run(s, i + l + 1)
}

/// The display id that starts at `i`, upper-cased.
pub open spec fn id_token(s: Seq<char>, i: int) -> Seq<char> {
    s.subrange(i, id_match_end(s, i)).map_values(|c: char| ascii_upper(c))
}

/// The display ids of `s` from `pos` on, in order of appearance.
pub open spec fn ids_from(s: Seq<char>, pos: int) -> Seq<Seq<char>>
    decreases s.len() - pos,
{
    if pos < 0 || pos >= s.len() {
        seq![]
    } else if id_match_at(s, pos) {
        proof {
            lemma_digit_run_bound(s, pos + letter_run(s, pos) + 1);
        }
        seq![id_token(s, pos)] + ids_from(s, id_match_end(s, pos))
    } else {
        ids_from(s, pos + 1)
    }
}

/// The first display id of a branch name that stands at its start or right
/// after a `/`.
pub open spec fn branch_id_from(s: Seq<char>, pos: int) -> Option<Seq<char>>
    decreases s.len() - pos,
{
    if pos < 0 || pos >= s.len() {
        None
    } else if (pos == 0 || s[pos - 1] == '/') && id_match_at(s, pos) {
        Some(id_token(s, pos))
    } else {
        branch_id_from(s, pos + 1)
    }
}

/// The words that close an issue: fix, close and resolve with their
/// inflections.
pub open spec fn is_closing_word(w: Seq<char>) -> bool {
    ||| w == seq!['f', 'i', 'x']
    ||| w == seq!['f', 'i', 'x', 'e', 's']
    ||| w == seq!['f', 'i', 'x', 'e', 'd']
    ||| w == seq!['c', 'l', 'o', 's', 'e']
    ||| w == seq!['c', 'l', 'o', 's', 'e', 's']
    ||| w == seq!['c', 'l', 'o', 's', 'e', 'd']
    ||| w == seq!['r', 'e', 's', 'o', 'l', 'v', 'e']
    ||| w == seq!['r', 'e', 's', 'o', 'l', 'v', 'e', 's']
    ||| w == seq!['r', 'e', 's', 'o', 'l', 'v', 'e', 'd']
}

/// Index of the `#` of a closing phrase that starts at `i`.
pub open spec fn close_hash(s: Seq<char>, i: int) -> int {
    let l = letter_run(s, i);
    i + l + ws_run(s, i + l)
}

/// A closing phrase starts at `i`: a closing word in any case, whitespace,
/// `#`, one or more digits.
pub open spec fn close_match_at(s: Seq<char>, i: int) -> bool {
    let l = letter_run(s, i);
    let h = close_hash(s, i);
    &&& is_closing_word(s.subrange(i, i + l).map_values(|c: char| ascii_lower(c)))
    &&& ws_run(s, i + l) >= 1
    &&& h < s.len()
    &&& s[h] == '#'
    &&& digit_run(s, h + 1) >= 1
}

pub open spec fn close_match_end(s: Seq<char>, i: int) -> int {
    let h = close_hash(s, i);
    h + 1 + digit_run(s, h + 1)
}

/// The value of a string of decimal digits.
pub open spec fn digits_value(d: Seq<char>) -> nat
    decreases d.len(),
{
    if d.len() == 0 {
        0
    } else {
        digits_value(d.drop_last()) * 10 + (d.last() as u32 - 0x30) as nat
    }
}

/// The issue number of the closing phrase that starts at `i`.
pub open spec fn close_number(s: Seq<char>, i: int) -> nat {
    digits_value(s.subrange(close_hash(s, i) + 1, close_match_end(s, i)))
}

/// The issue numbers that closing phrases of `s` name from `pos` on; a number
/// that is zero or does not fit in an `i32` names nothing.
pub open spec fn closing_from(s: Seq<char>, pos: int) -> Seq<int>
    decreases s.len() - pos,
{
    if pos < 0 || pos >= s.len() {
        seq![]
    } else if close_match_at(s, pos) {
        proof {
            lemma_digit_run_bound(s, close_hash(s, pos) + 1);
        }
        let n = close_number(s, pos);
        (if 1 <= n <= i32::MAX {
            seq![n as int]
        } else {
            seq![]
        }) + closing_from(s, close_match_end(s, pos))
    } else {
        closing_from(s, pos + 1)
    }
}

pub fn is_letter(c: char) -> (r: bool)
    ensures
        r == is_ascii_letter(c),
{
    let u = c as u32;
    (0x41 <= u && u <= 0x5a) || (0x61 <= u && u <= 0x7a)
}

pub fn is_digit(c: char) -> (r: bool)
    ensures
        r == is_ascii_digit(c),
{
    let u = c as u32;
    0x30 <= u && u <= 0x39
}

fn upper(c: char) -> (r: char)
    ensures
        r == ascii_upper(c),
{
    if 0x61 <= c as u32 && c as u32 <= 0x7a {
        ((c as u32 - 32) as u8) as char
    } else {
        c
    }
}

fn lower(c: char) -> (r: char)
    ensures
        r == ascii_lower(c),
{
    if 0x41 <= c as u32 && c as u32 <= 0x5a {
        ((c as u32 + 32) as u8) as char
    } else {
        c
    }
}

/// The letter run at `i`, counted up to `cap`.
fn letters_upto(v: &Vec<char>, i: usize, cap: usize) -> (r: usize)
    requires
        i <= v@.len(),
    ensures
        r <= cap,
        i + r <= v@.len(),
        r == cap ==> letter_run(v@, i as int) >= cap,
        r < cap ==> letter_run(v@, i as int) == r,
{
    let mut k: usize = 0;
    while k < cap && k < v.len() - i && is_letter(v[i + k])
        invariant
            i <= v@.len(),
            k <= cap,
            i + k <= v@.len(),
            letter_run(v@, i as int) == k + letter_run(v@, i + k),
        decreases cap - k,
    {
        k = k + 1;
    }
    k
}

/// The digit run at `i`.
fn digits_at(v: &Vec<char>, i: usize) -> (r: usize)
    requires
        i <= v@.len(),
    ensures
        i + r <= v@.len(),
        r == digit_run(v@, i as int),
{
    let mut k: usize = 0;
    while k < v.len() - i && is_digit(v[i + k])
        invariant
            i <= v@.len(),
            i + k <= v@.len(),
            digit_run(v@, i as int) == k + digit_run(v@, i + k),
        decreases v@.len() - i - k,
    {
        k = k + 1;
    }
    k
}

/// The whitespace run at `i`.
fn spaces_at(v: &Vec<char>, i: usize) -> (r: usize)
    requires
        i <= v@.len(),
    ensures
        i + r <= v@.len(),
        r == ws_run(v@, i as int),
{
    let mut k: usize = 0;
    while k < v.len() - i && is_white_space(v[i + k])
        invariant
            i <= v@.len(),
            i + k <= v@.len(),
            ws_run(v@, i as int) == k + ws_run(v@, i + k),
        decreases v@.len() - i - k,
    {
        k = k + 1;
    }
    k
}

/// The end of the display id that starts at `i`, if one does.
fn id_match(v: &Vec<char>, i: usize) -> (r: Option<usize>)
    requires
        i <= v@.len(),
    ensures
        r is Some <==> id_match_at(v@, i as int),
        r matches Some(e) ==> e == id_match_end(v@, i as int) && e <= v@.len(),
{
    let n = v.len();
    let l = letters_upto(v, i, 11);
    if l < 2 || l > 10 {
        return None;
    }
    let j = i + l;
    if j >= n || v[j] != '-' {
        return None;
    }
    let d = digits_at(v, j + 1);
    if d == 0 {
        return None;
    }
    Some(j + 1 + d)
}

/// The characters of `v` from `i` to `e`, upper-cased.
fn upper_slice(v: &Vec<char>, i: usize, e: usize) -> (r: Vec<char>)
    requires
        i <= e <= v@.len(),
    ensures
        r@ == v@.subrange(i as int, e as int).map_values(|c: char| ascii_upper(c)),
{
    let mut out: Vec<char> = Vec::new();
    let mut k: usize = i;
    while k < e
        invariant
            i <= k <= e <= v@.len(),
            out@ == v@.subrange(i as int, k as int).map_values(|c: char| ascii_upper(c)),
        decreases e - k,
    {
        out.push(upper(v[k]));
        k = k + 1;
        assert(out@ =~= v@.subrange(i as int, k as int).map_values(|c: char| ascii_upper(c)));
    }
    out
}

/// The display ids of `v`, in order of appearance, upper-cased.
pub fn display_ids(v: &Vec<char>) -> (r: Vec<Vec<char>>)
    ensures
        r@.map_values(|t: Vec<char>| t@) == ids_from(v@, 0),
{
    let n = v.len();
    let mut out: Vec<Vec<char>> = Vec::new();
    let mut pos: usize = 0;
    while pos < n
        invariant
            n == v@.len(),
            pos <= n,
            out@.map_values(|t: Vec<char>| t@) + ids_from(v@, pos as int) == ids_from(v@, 0),
        decreases n - pos,
    {
        let ghost before = out@.map_values(|t: Vec<char>| t@);
        match id_match(v, pos) {
            Some(e) => {
                let t = upper_slice(v, pos, e);
                out.push(t);
                assert(out@.map_values(|t: Vec<char>| t@) =~= before.push(id_token(v@, pos as int)));
                assert(ids_from(v@, pos as int) == seq![id_token(v@, pos as int)] + ids_from(v@, e as int));
                assert(before.push(id_token(v@, pos as int)) + ids_from(v@, e as int)
                    =~= before + ids_from(v@, pos as int));
                pos = e;
            },
            None => {
                pos = pos + 1;
            },
        }
    }
    assert(out@.map_values(|t: Vec<char>| t@) + ids_from(v@, n as int) =~= out@.map_values(|t: Vec<char>| t@));
    out
}

/// The first display id of a branch name that stands at its start or after
/// a `/`, upper-cased.
pub fn branch_display_id(v: &Vec<char>) -> (r: Option<Vec<char>>)
    ensures
        r matches Some(t) ==> branch_id_from(v@, 0) == Some(t@),
        r is None ==> branch_id_from(v@, 0) is None,
{
    let n = v.len();
    let mut pos: usize = 0;
    while pos < n
        invariant
            n == v@.len(),
            pos <= n,
            branch_id_from(v@, pos as int) == branch_id_from(v@, 0),
        decreases n - pos,
    {
        if pos == 0 || v[pos - 1] == '/' {
            if let Some(e) = id_match(v, pos) {
                return Some(upper_slice(v, pos, e));
            }
        }
        pos = pos + 1;
    }
    None
}

fn same_word(w: &Vec<char>, k: &Vec<char>) -> (r: bool)
    ensures
        r == (w@ == k@),
{
    if w.len() != k.len() {
        return false;
    }
    let mut i: usize = 0;
    while i < w.len()
        invariant
            w@.len() == k@.len(),
            i <= w@.len(),
            forall|j: int| 0 <= j < i ==> w@[j] == k@[j],
        decreases w@.len() - i,
    {
        if w[i] != k[i] {
            return false;
        }
        i = i + 1;
    }
    assert(w@ =~= k@);
    true
}

/// Whether the `l` letters from `i`, lower-cased, form a closing word.
fn closing_word_at(v: &Vec<char>, i: usize, l: usize) -> (r: bool)
    requires
        i + l <= v@.len(),
    ensures
        r == is_closing_word(v@.subrange(i as int, i + l).map_values(|c: char| ascii_lower(c))),
{
    let n = v.len();
    let end = i + l;
    let mut w: Vec<char> = Vec::new();
    let mut k: usize = i;
    while k < end
        invariant
            end == i + l,
            i <= k <= i + l <= v@.len(),
            w@ == v@.subrange(i as int, k as int).map_values(|c: char| ascii_lower(c)),
        decreases end - k,
    {
        w.push(lower(v[k]));
        k = k + 1;
        assert(w@ =~= v@.subrange(i as int, k as int).map_values(|c: char| ascii_lower(c)));
    }
    same_word(&w, &vec!['f', 'i', 'x']) || same_word(&w, &vec!['f', 'i', 'x', 'e', 's'])
        || same_word(&w, &vec!['f', 'i', 'x', 'e', 'd']) || same_word(
        &w,
        &vec!['c', 'l', 'o', 's', 'e'],
    ) || same_word(&w, &vec!['c', 'l', 'o', 's', 'e', 's']) || same_word(
        &w,
        &vec!['c', 'l', 'o', 's', 'e', 'd'],
    ) || same_word(&w, &vec!['r', 'e', 's', 'o', 'l', 'v', 'e']) || same_word(
        &w,
        &vec!['r', 'e', 's', 'o', 'l', 'v', 'e', 's'],
    ) || same_word(&w, &vec!['r', 'e', 's', 'o', 'l', 'v', 'e', 'd'])
}

/// The value of the digits from `a` to `b`, or `None` when it exceeds
/// `i32::MAX`.
fn parse_digits(v: &Vec<char>, a: usize, b: usize) -> (r: Option<i32>)
    requires
        a <= b <= v@.len(),
        digit_run(v@, a as int) == b - a,
    ensures
        r matches Some(x) ==> x >= 0 && x as nat == digits_value(v@.subrange(a as int, b as int)),
        r is None ==> digits_value(v@.subrange(a as int, b as int)) > i32::MAX,
{
    let mut val: i64 = 0;
    let mut big = false;
    let mut k: usize = a;
    while k < b
        invariant
            a <= k <= b <= v@.len(),
            digit_run(v@, a as int) == b - a,
            digit_run(v@, a as int) == (k - a) + digit_run(v@, k as int),
            !big ==> 0 <= val <= i32::MAX && val == digits_value(v@.subrange(a as int, k as int)),
            big ==> digits_value(v@.subrange(a as int, k as int)) > i32::MAX,
        decreases b - k,
    {
        assert(v@.subrange(a as int, k + 1).drop_last() =~= v@.subrange(a as int, k as int));
        assert(digit_run(v@, k as int) >= 1);
        assert(is_ascii_digit(v@[k as int]));
        let dg = (v[k] as u32 - 0x30) as u8 as i64;
        if !big {
            let nv = val * 10 + dg;
            if nv > i32::MAX as i64 {
                big = true;
            } else {
                val = nv;
            }
        }
        k = k + 1;
    }
    if big {
        None
    } else {
        Some(val as i32)
    }
}

/// The end of the closing phrase that starts at `i`, if one does, with its
/// number, or `None` for a number beyond `i32::MAX`.
fn close_match(v: &Vec<char>, i: usize) -> (r: Option<(usize, Option<i32>)>)
    requires
        i <= v@.len(),
    ensures
        r is Some <==> close_match_at(v@, i as int),
        r matches Some((e, num)) ==> {
            &&& e == close_match_end(v@, i as int)
            &&& e <= v@.len()
            &&& num matches Some(x) ==> x >= 0 && x as nat == close_number(v@, i as int)
            &&& num is None ==> close_number(v@, i as int) > i32::MAX
        },
{
    let n = v.len();
    let l = letters_upto(v, i, 9);
    proof {
        lemma_letter_run_bound(v@, i as int);
        let run = letter_run(v@, i as int);
        assert(v@.subrange(i as int, i + run).map_values(|c: char| ascii_lower(c)).len() == run);
    }
    if l < 3 || l > 8 {
        return None;
    }
    if !closing_word_at(v, i, l) {
        return None;
    }
    let w = spaces_at(v, i + l);
    if w == 0 {
        return None;
    }
    let h = i + l + w;
    if h >= n || v[h] != '#' {
        return None;
    }
    let d = digits_at(v, h + 1);
    if d == 0 {
        return None;
    }
    let num = parse_digits(v, h + 1, h + 1 + d);
    Some((h + 1 + d, num))
}

/// The issue numbers that the closing phrases of `v` name, in order.
pub fn closing_numbers(v: &Vec<char>) -> (r: Vec<i32>)
    ensures
        r@.map_values(|x: i32| x as int) == closing_from(v@, 0),
{
    let n = v.len();
    let mut out: Vec<i32> = Vec::new();
    let mut pos: usize = 0;
    while pos < n
        invariant
            n == v@.len(),
            pos <= n,
            out@.map_values(|x: i32| x as int) + closing_from(v@, pos as int) == closing_from(v@, 0),
        decreases n - pos,
    {
        let ghost before = out@.map_values(|x: i32| x as int);
        match close_match(v, pos) {
            Some((e, num)) => {
                let ghost cn = close_number(v@, pos as int);
                let ghost rest = closing_from(v@, e as int);
                match num {
                    Some(x) => {
                        if x > 0 {
                            out.push(x);
                            assert(out@.map_values(|x: i32| x as int) =~= before.push(cn as int));
                            assert(before.push(cn as int) + rest =~= before + (seq![cn as int] + rest));
                        } else {
                            assert(before + rest =~= before + (Seq::<int>::empty() + rest));
                        }
                    },
                    None => {
                        assert(before + rest =~= before + (Seq::<int>::empty() + rest));
                    },
                }
                pos = e;
            },
            None => {
                pos = pos + 1;
            },
        }
    }
    assert(out@.map_values(|x: i32| x as int) + closing_from(v@, n as int) =~= out@.map_values(
        |x: i32| x as int,
    ));
    out
}

} // verus!
