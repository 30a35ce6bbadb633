//! The issue linker: which work item a branch, a title and a body refer to,
//! and the branch name suggested for a work item.
use vstd::prelude::*;
use crate::scan::{branch_display_id, branch_id_from, closing_from, closing_numbers, display_ids, ids_from};
use crate::text::{alphanumeric, chars_of, is_alphanumeric, lowercase_of, string_of, to_lowercase};

verus! {

/// One lookup that may resolve a link: a display id within the project, or
/// the number of a GitHub issue already linked within the repository.
pub enum LinkLookup {
    DisplayId(String),
    IssueNumber(i32),
}

/// What a lookup asks for.
pub enum LinkKey {
    Display(Seq<char>),
    Number(int),
}

impl View for LinkLookup {
    type V = LinkKey;

    open spec fn view(&self) -> LinkKey {
        match self {
            LinkLookup::DisplayId(s) => LinkKey::Display(s@),
            LinkLookup::IssueNumber(n) => LinkKey::Number(*n as int),
        }
    }
}

pub open spec fn keys_of(v: Seq<LinkLookup>) -> Seq<LinkKey> {
    v.map_values(|l: LinkLookup| l@)
}

pub open spec fn displays(ts: Seq<Seq<char>>) -> Seq<LinkKey> {
    ts.map_values(|t: Seq<char>| LinkKey::Display(t))
}

pub open spec fn numbers(ns: Seq<int>) -> Seq<LinkKey> {
    ns.map_values(|n: int| LinkKey::Number(n))
}

/// The lookups in the order in which they are tried: the display id of the
/// branch, those of the title, those of the body, then the issues that the
/// body's closing phrases name.
pub open spec fn link_keys(branch: Seq<char>, title: Seq<char>, body: Seq<char>) -> Seq<LinkKey> {
    let b = match branch_id_from(branch, 0) {
        Some(t) => seq![LinkKey::Display(t)],
        None => seq![],
    };
    b + displays(ids_from(title, 0)) + displays(ids_from(body, 0)) + numbers(closing_from(body, 0))
}

fn push_displays(out: &mut Vec<LinkLookup>, ids: &Vec<Vec<char>>)
    ensures
        keys_of(final(out)@) == keys_of(old(out)@) + displays(ids@.map_values(|t: Vec<char>| t@)),
{
    let ghost start = keys_of(out@);
    let mut i: usize = 0;
    while i < ids.len()
        invariant
            i <= ids@.len(),
            keys_of(out@) == start + displays(
                ids@.subrange(0, i as int).map_values(|t: Vec<char>| t@),
            ),
        decreases ids@.len() - i,
    {
        let s = string_of(&ids[i]);
        let ghost prev = out@;
        let ghost done = ids@.subrange(0, i as int).map_values(|t: Vec<char>| t@);
        out.push(LinkLookup::DisplayId(s));
        assert(keys_of(out@) =~= keys_of(prev).push(LinkKey::Display(ids@[i as int]@)));
        assert(ids@.subrange(0, i + 1).map_values(|t: Vec<char>| t@) =~= done.push(ids@[i as int]@));
        assert(displays(done.push(ids@[i as int]@)) =~= displays(done).push(LinkKey::Display(ids@[i as int]@)));
        i = i + 1;
        assert(keys_of(out@) =~= start + displays(
            ids@.subrange(0, i as int).map_values(|t: Vec<char>| t@),
        ));
    }
    assert(ids@.subrange(0, i as int) =~= ids@);
}

/// The lookups that decide the work item that a branch, title and body
/// refer to, in the order in which they are tried.
pub fn link_lookups(branch: &str, title: &str, body: &str) -> (r: Vec<LinkLookup>)
    ensures
        keys_of(r@) == link_keys(branch@, title@, body@),
{
    let b = chars_of(branch);
    let t = chars_of(title);
    let d = chars_of(body);
    let mut out: Vec<LinkLookup> = Vec::new();
    match branch_display_id(&b) {
        Some(id) => {
            out.push(LinkLookup::DisplayId(string_of(&id)));
        },
        None => {},
    }
    let ghost first = keys_of(out@);
    assert(first =~= match branch_id_from(branch@, 0) {
        Some(t) => seq![LinkKey::Display(t)],
        None => Seq::<LinkKey>::empty(),
    });
    push_displays(&mut out, &display_ids(&t));
    push_displays(&mut out, &display_ids(&d));
    let ns = closing_numbers(&d);
    let ghost before = keys_of(out@);
    let mut i: usize = 0;
    while i < ns.len()
        invariant
            i <= ns@.len(),
            keys_of(out@) == before + numbers(
                ns@.subrange(0, i as int).map_values(|x: i32| x as int),
            ),
        decreases ns@.len() - i,
    {
        let ghost prev = out@;
        let ghost done = ns@.subrange(0, i as int).map_values(|x: i32| x as int);
        out.push(LinkLookup::IssueNumber(ns[i]));
        assert(keys_of(out@) =~= keys_of(prev).push(LinkKey::Number(ns@[i as int] as int)));
        assert(ns@.subrange(0, i + 1).map_values(|x: i32| x as int) =~= done.push(ns@[i as int] as int));
        assert(numbers(done.push(ns@[i as int] as int)) =~= numbers(done).push(LinkKey::Number(ns@[i as int] as int)));
        i = i + 1;
        assert(keys_of(out@) =~= before + numbers(
            ns@.subrange(0, i as int).map_values(|x: i32| x as int),
        ));
    }
    assert(ns@.subrange(0, i as int) =~= ns@);
    out
}

/// What the store holds for the lookups: display ids of the project's work
/// items, and GitHub issue numbers already linked in the repository, each
/// with the id of its work item.
pub struct LinkIndex {
    pub display_ids: Vec<(String, u128)>,
    pub issue_numbers: Vec<(i32, u128)>,
}

/// The work item of the first entry with display id `key`.
pub open spec fn find_display(t: Seq<(String, u128)>, key: Seq<char>) -> Option<u128>
    decreases t.len(),
{
    if t.len() == 0 {
        None
    } else if t[0].0@ == key {
        Some(t[0].1)
    } else {
        find_display(t.drop_first(), key)
    }
}

/// The work item of the first entry with issue number `n`.
pub open spec fn find_number(t: Seq<(i32, u128)>, n: int) -> Option<u128>
    decreases t.len(),
{
    if t.len() == 0 {
        None
    } else if t[0].0 as int == n {
        Some(t[0].1)
    } else {
        find_number(t.drop_first(), n)
    }
}

pub open spec fn lookup_key(idx: &LinkIndex, k: LinkKey) -> Option<u128> {
    match k {
        LinkKey::Display(s) => find_display(idx.display_ids@, s),
        LinkKey::Number(n) => find_number(idx.issue_numbers@, n),
    }
}

/// The answer of the first lookup that finds a work item.
pub open spec fn resolve_keys(idx: &LinkIndex, keys: Seq<LinkKey>) -> Option<u128>
    decreases keys.len(),
{
    if keys.len() == 0 {
        None
    } else {
        match lookup_key(idx, keys[0]) {
            Some(id) => Some(id),
            None => resolve_keys(idx, keys.drop_first()),
        }
    }
}

fn lookup(idx: &LinkIndex, l: &LinkLookup) -> (r: Option<u128>)
    ensures
        r == lookup_key(idx, l@),
{
    match l {
        LinkLookup::DisplayId(s) => {
            let mut i: usize = 0;
            assert(idx.display_ids@.subrange(0, idx.display_ids@.len() as int)
                =~= idx.display_ids@);
            while i < idx.display_ids.len()
                invariant
                    i <= idx.display_ids@.len(),
                    lookup_key(idx, l@) == find_display(idx.display_ids@, s@),
                    find_display(idx.display_ids@, s@) == find_display(
                        idx.display_ids@.subrange(i as int, idx.display_ids@.len() as int),
                        s@,
                    ),
                decreases idx.display_ids@.len() - i,
            {
                let ghost rest = idx.display_ids@.subrange(i as int, idx.display_ids@.len() as int);
                assert(rest.drop_first() =~= idx.display_ids@.subrange(
                    i + 1,
                    idx.display_ids@.len() as int,
                ));
                assert(rest[0] == idx.display_ids@[i as int]);
                if idx.display_ids[i].0 == *s {
                    let id = idx.display_ids[i].1;
                    assert(find_display(rest, s@) == Some(id));
                    return Some(id);
                }
                i = i + 1;
            }
            None
        },
        LinkLookup::IssueNumber(n) => {
            let mut i: usize = 0;
            assert(idx.issue_numbers@.subrange(0, idx.issue_numbers@.len() as int)
                =~= idx.issue_numbers@);
            while i < idx.issue_numbers.len()
                invariant
                    i <= idx.issue_numbers@.len(),
                    lookup_key(idx, l@) == find_number(idx.issue_numbers@, *n as int),
                    find_number(idx.issue_numbers@, *n as int) == find_number(
                        idx.issue_numbers@.subrange(i as int, idx.issue_numbers@.len() as int),
                        *n as int,
                    ),
                decreases idx.issue_numbers@.len() - i,
            {
                let ghost rest = idx.issue_numbers@.subrange(
                    i as int,
                    idx.issue_numbers@.len() as int,
                );
                assert(rest.drop_first() =~= idx.issue_numbers@.subrange(
                    i + 1,
                    idx.issue_numbers@.len() as int,
                ));
                assert(rest[0] == idx.issue_numbers@[i as int]);
                if idx.issue_numbers[i].0 == *n {
                    let id = idx.issue_numbers[i].1;
                    assert(find_number(rest, *n as int) == Some(id));
                    return Some(id);
                }
                i = i + 1;
            }
            None
        },
    }
}

/// The answer of the first of `lookups` that finds a work item.
pub fn first_resolved(lookups: &Vec<LinkLookup>, index: &LinkIndex) -> (r: Option<u128>)
    ensures
        r == resolve_keys(index, keys_of(lookups@)),
{
    let n = lookups.len();
    let mut i: usize = 0;
    assert(keys_of(lookups@).subrange(0, n as int) =~= keys_of(lookups@));
    while i < n
        invariant
            n == lookups@.len(),
            i <= n,
            resolve_keys(index, keys_of(lookups@)) == resolve_keys(
                index,
                keys_of(lookups@).subrange(i as int, n as int),
            ),
        decreases n - i,
    {
        assert(keys_of(lookups@).subrange(i as int, n as int).drop_first() =~= keys_of(
            lookups@,
        ).subrange(i + 1, n as int));
        let found = lookup(index, &lookups[i]);
        if found.is_some() {
            return found;
        }
        i = i + 1;
    }
    None
}

/// The work item that a branch, a title and a body refer to, by the first
/// lookup of `link_lookups` that `index` answers; `None` when none does.
pub fn find_linked_issue(branch: &str, title: &str, body: &str, index: &LinkIndex) -> (r: Option<
    u128,
>)
    ensures
        r == resolve_keys(index, link_keys(branch@, title@, body@)),
{
    let lookups = link_lookups(branch, title, body);
    first_resolved(&lookups, index)
}

/// The longest slug that a suggested branch name carries.
pub const SLUG_MAX: usize = 50;

/// A character of a slug: itself when alphanumeric, else a dash.
pub open spec fn slug_char(c: char) -> char {
    if alphanumeric(c) {
        c
    } else {
        '-'
    }
}

/// `s` with leading dashes dropped and each run of dashes made one dash.
pub open spec fn squeeze_dashes(s: Seq<char>) -> Seq<char>
    decreases s.len(),
{
    if s.len() == 0 {
        s
    } else {
        let p = squeeze_dashes(s.drop_last());
        if s.last() != '-' {
            p.push(s.last())
        } else if p.len() == 0 || p.last() == '-' {
            p
        } else {
            p.push('-')
        }
    }
}

/// `s` without trailing dashes.
pub open spec fn trim_end_dashes(s: Seq<char>) -> Seq<char>
    decreases s.len(),
{
    if s.len() > 0 && s.last() == '-' {
        trim_end_dashes(s.drop_last())
    } else {
        s
    }
}

/// The slug of an already lower-cased title: non-alphanumeric characters
/// become dashes, dashes are collapsed and trimmed, and the result is cut to
/// `SLUG_MAX` characters with trailing dashes trimmed again.
pub open spec fn slug_of(t: Seq<char>) -> Seq<char> {
    let c = trim_end_dashes(squeeze_dashes(t.map_values(|c: char| slug_char(c))));
    trim_end_dashes(
        if c.len() > SLUG_MAX {
            c.take(SLUG_MAX as int)
        } else {
            c
        },
    )
}

/// The suggested branch name: the lower-cased display id, a dash, the slug of
/// the lower-cased title.
pub open spec fn branch_name_of(display_id: Seq<char>, title: Seq<char>) -> Seq<char> {
    lowercase_of(display_id) + seq!['-'] + slug_of(lowercase_of(title))
}

proof fn lemma_trim_end_dashes(s: Seq<char>)
    ensures
        trim_end_dashes(s).len() <= s.len(),
        trim_end_dashes(s).len() > 0 ==> trim_end_dashes(s).last() != '-',
    decreases s.len(),
{
    if s.len() > 0 && s.last() == '-' {
        lemma_trim_end_dashes(s.drop_last());
    }
}

/// A slug has at most `SLUG_MAX` characters and never ends with a dash,
/// whatever the title.
pub proof fn lemma_slug_bounded(t: Seq<char>)
    ensures
        slug_of(t).len() <= SLUG_MAX,
        slug_of(t).len() > 0 ==> slug_of(t).last() != '-',
{
    let c = trim_end_dashes(squeeze_dashes(t.map_values(|c: char| slug_char(c))));
    let d = if c.len() > SLUG_MAX {
        c.take(SLUG_MAX as int)
    } else {
        c
    };
    lemma_trim_end_dashes(d);
}

fn trim_dashes(v: &mut Vec<char>)
    ensures
        final(v)@ == trim_end_dashes(old(v)@),
{
    let ghost start = v@;
    while v.len() > 0 && v[v.len() - 1] == '-'
        invariant
            trim_end_dashes(start) == trim_end_dashes(v@),
        decreases v@.len(),
    {
        let ghost before = v@;
        v.pop();
        assert(v@ =~= before.drop_last());
    }
}

fn slug(v: &Vec<char>) -> (r: Vec<char>)
    ensures
        r@ == slug_of(v@),
{
    let ghost m = v@.map_values(|c: char| slug_char(c));
    let n = v.len();
    let mut out: Vec<char> = Vec::new();
    let mut k: usize = 0;
    while k < n
        invariant
            n == v@.len(),
            k <= n,
            m == v@.map_values(|c: char| slug_char(c)),
            out@ == squeeze_dashes(m.take(k as int)),
        decreases n - k,
    {
        let c = v[k];
        let x = if is_alphanumeric(c) {
            c
        } else {
            '-'
        };
        assert(m.take(k + 1).drop_last() =~= m.take(k as int));
        assert(m.take(k + 1).last() == x);
        if x != '-' {
            out.push(x);
        } else if out.len() > 0 && out[out.len() - 1] != '-' {
            out.push('-');
        }
        k = k + 1;
    }
    assert(m.take(n as int) =~= m);
    trim_dashes(&mut out);
    if out.len() > SLUG_MAX {
        out.truncate(SLUG_MAX);
    }
    trim_dashes(&mut out);
    out
}

/// A branch name from an already lower-cased display id and title:
/// `{display-id}-{slug}`.
pub fn branch_name_from_lowercase(lower_id: &str, lower_title: &str) -> (r: String)
    ensures
        r@ == lower_id@ + seq!['-'] + slug_of(lower_title@),
{
    let mut out = chars_of(lower_id);
    out.push('-');
    let s = slug(&chars_of(lower_title));
    let ghost head = out@;
    let mut i: usize = 0;
    while i < s.len()
        invariant
            i <= s@.len(),
            out@ == head + s@.take(i as int),
        decreases s@.len() - i,
    {
        out.push(s[i]);
        i = i + 1;
        assert(out@ =~= head + s@.take(i as int));
    }
    assert(s@.take(i as int) =~= s@);
    string_of(&out)
}

/// A branch name suggested for a work item: `{display-id}-{slug}`, with the
/// display id lower-cased and the slug made from the lower-cased title.
pub fn generate_branch_name(display_id: &str, title: &str) -> (r: String)
    ensures
        r@ == branch_name_of(display_id@, title@),
{
    let lower_id = to_lowercase(display_id);
    let lower_title = to_lowercase(title);
    branch_name_from_lowercase(lower_id.as_str(), lower_title.as_str())
}

} // verus!
