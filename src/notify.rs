//! Mentions of users in comment text, for notifications.
use vstd::prelude::*;
use crate::text::{chars_of, is_ascii_digit, is_ascii_letter, string_of};
use crate::scan::{is_digit, is_letter};

verus! {

/// A recipient of a notification.
pub struct Subscriber {
    pub id: String,
    pub email: Option<String>,
    pub name: Option<String>,
}

/// Number of consecutive ASCII letters and digits in `s` from `i`.
pub open spec fn alnum_run(s: Seq<char>, i: int) -> nat
    decreases s.len() - i,
{
    if 0 <= i < s.len() && (is_ascii_letter(s[i]) || is_ascii_digit(s[i])) {
        1 + alnum_run(s, i + 1)
    } else {
        0
    }
}

pub proof fn lemma_alnum_run_bound(s: Seq<char>, i: int)
    requires
        0 <= i <= s.len(),
    ensures
        i + alnum_run(s, i) <= s.len(),
    decreases s.len() - i,
{
    if i < s.len() {
        lemma_alnum_run_bound(s, i + 1);
    }
}

pub open spec fn user_prefix() -> Seq<char> {
    seq!['u', 's', 'e', 'r', '_']
}

/// A mention starts at `i`: `@user_` and one or more ASCII letters or
/// digits.
pub open spec fn mention_at(s: Seq<char>, i: int) -> bool {
    &&& 0 <= i
    &&& i + 6 <= s.len()
    &&& s[i] == '@'
    &&& s.subrange(i + 1, i + 6) == user_prefix()
    &&& alnum_run(s, i + 6) >= 1
}

pub open spec fn mention_end(s: Seq<char>, i: int) -> int {
    i + 6 + alnum_run(s, i + 6)
}

/// The user ids mentioned in `s` from `pos` on, in order, each without its
/// `@`.
pub open spec fn mentions_from(s: Seq<char>, pos: int) -> Seq<Seq<char>>
    decreases s.len() - pos,
{
    if pos < 0 || pos >= s.len() {
        seq![]
    } else if mention_at(s, pos) {
        proof {
            lemma_alnum_run_bound(s, pos + 6);
        }
        seq![s.subrange(pos + 1, mention_end(s, pos))] + mentions_from(s, mention_end(s, pos))
    } else {
        mentions_from(s, pos + 1)
    }
}

fn alnum_at(v: &Vec<char>, i: usize) -> (r: usize)
    requires
        i <= v@.len(),
    ensures
        i + r <= v@.len(),
        r == alnum_run(v@, i as int),
{
    let mut k: usize = 0;
    while k < v.len() - i && (is_letter(v[i + k]) || is_digit(v[i + k]))
        invariant
            i <= v@.len(),
            i + k <= v@.len(),
            alnum_run(v@, i as int) == k + alnum_run(v@, i + k),
        decreases v@.len() - i - k,
    {
        k = k + 1;
    }
    k
}

fn mention_match(v: &Vec<char>, i: usize) -> (r: Option<usize>)
    requires
        i <= v@.len(),
    ensures
        r is Some <==> mention_at(v@, i as int),
        r matches Some(e) ==> e == mention_end(v@, i as int) && e <= v@.len(),
{
    let n = v.len();
    if n - i < 6 || v[i] != '@' || v[i + 1] != 'u' || v[i + 2] != 's' || v[i + 3] != 'e' || v[i + 4]
        != 'r' || v[i + 5] != '_' {
        proof {
            if i + 6 <= n && v@[i as int] == '@' {
                let p = v@.subrange(i + 1, i + 6);
                if p == user_prefix() {
                    assert(p[0] == 'u' && p[1] == 's' && p[2] == 'e' && p[3] == 'r' && p[4] == '_');
                }
            }
        }
        return None;
    }
    assert(v@.subrange(i + 1, i + 6) =~= user_prefix());
    let k = alnum_at(v, i + 6);
    if k == 0 {
        return None;
    }
    Some(i + 6 + k)
}

fn copy_range(v: &Vec<char>, a: usize, b: usize) -> (r: Vec<char>)
    requires
        a <= b <= v@.len(),
    ensures
        r@ == v@.subrange(a as int, b as int),
{
    let mut out: Vec<char> = Vec::new();
    let mut k: usize = a;
    while k < b
        invariant
            a <= k <= b <= v@.len(),
            out@ == v@.subrange(a as int, k as int),
        decreases b - k,
    {
        out.push(v[k]);
        k = k + 1;
        assert(out@ =~= v@.subrange(a as int, k as int));
    }
    out
}

/// The `user_...` ids mentioned with `@` in `text`, in order, repeats
/// included.
pub fn parse_mentions(text: &str) -> (r: Vec<String>)
    ensures
        r@.map_values(|s: String| s@) == mentions_from(text@, 0),
{
    let v = chars_of(text);
    let n = v.len();
    let mut out: Vec<String> = Vec::new();
    let mut pos: usize = 0;
    while pos < n
        invariant
            v@ == text@,
            n == v@.len(),
            pos <= n,
            out@.map_values(|s: String| s@) + mentions_from(v@, pos as int) == mentions_from(v@, 0),
        decreases n - pos,
    {
        let ghost before = out@.map_values(|s: String| s@);
        match mention_match(&v, pos) {
            Some(e) => {
                let m = string_of(&copy_range(&v, pos + 1, e));
                out.push(m);
                let ghost t = v@.subrange(pos + 1, e as int);
                assert(out@.map_values(|s: String| s@) =~= before.push(t));
                assert(before.push(t) + mentions_from(v@, e as int) =~= before + mentions_from(
                    v@,
                    pos as int,
                ));
                pos = e;
            },
            None => {
                pos = pos + 1;
            },
        }
    }
    assert(out@.map_values(|s: String| s@) + mentions_from(v@, n as int) =~= out@.map_values(
        |s: String| s@,
    ));
    out
}

} // verus!
