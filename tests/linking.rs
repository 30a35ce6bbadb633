use baaton_api::linker::{find_linked_issue, generate_branch_name, link_lookups, LinkIndex, LinkLookup};
use baaton_api::scan::{branch_display_id, closing_numbers, display_ids};
use baaton_api::text::trim;

fn ids(s: &str) -> Vec<String> {
    display_ids(&s.chars().collect()).iter().map(|v| v.iter().collect()).collect()
}

fn index(display: &[(&str, u128)], numbers: &[(i32, u128)]) -> LinkIndex {
    LinkIndex {
        display_ids: display.iter().map(|(d, i)| (d.to_string(), *i)).collect(),
        issue_numbers: numbers.to_vec(),
    }
}

#[test]
fn branch_id_wins_over_title() {
    let idx = index(&[("BAA-7", 7), ("BAA-99", 99)], &[]);
    assert_eq!(find_linked_issue("feature/BAA-7-x", "Fixes BAA-99", "", &idx), Some(7));
}

#[test]
fn title_used_when_branch_id_unknown() {
    let idx = index(&[("BAA-99", 99)], &[]);
    assert_eq!(find_linked_issue("feature/BAA-7-x", "Fixes BAA-99", "", &idx), Some(99));
}

#[test]
fn closing_keyword_fallback() {
    let idx = index(&[], &[(42, 4200)]);
    assert_eq!(find_linked_issue("", "", "Closes #42", &idx), Some(4200));
    let empty = index(&[], &[]);
    assert_eq!(find_linked_issue("", "", "Closes #42", &empty), None);
}

#[test]
fn lookups_come_in_priority_order() {
    let l = link_lookups("BAA-1/fix", "see abc-2 and XY-3", "body QQ-4, fixes  #5 and resolved #0");
    let expect = vec![
        LinkLookup::DisplayId("BAA-1".to_string()),
        LinkLookup::DisplayId("ABC-2".to_string()),
        LinkLookup::DisplayId("XY-3".to_string()),
        LinkLookup::DisplayId("QQ-4".to_string()),
        LinkLookup::IssueNumber(5),
    ];
    assert_eq!(l.len(), expect.len());
    for (a, b) in l.iter().zip(expect.iter()) {
        match (a, b) {
            (LinkLookup::DisplayId(x), LinkLookup::DisplayId(y)) => assert_eq!(x, y),
            (LinkLookup::IssueNumber(x), LinkLookup::IssueNumber(y)) => assert_eq!(x, y),
            _ => panic!("lookup kinds differ"),
        }
    }
}

#[test]
fn display_id_shapes() {
    assert_eq!(ids("BAA-42 and proj-7"), vec!["BAA-42", "PROJ-7"]);
    assert_eq!(ids("A-1 X-"), Vec::<String>::new());
    assert_eq!(ids("ABCDEFGHIJK-1"), vec!["BCDEFGHIJK-1"]);
    assert_eq!(ids("BAA-42-7"), vec!["BAA-42"]);
    assert_eq!(ids(""), Vec::<String>::new());
}

#[test]
fn branch_id_needs_start_or_slash() {
    let b = |s: &str| branch_display_id(&s.chars().collect()).map(|v| v.iter().collect::<String>());
    assert_eq!(b("feature/baa-42-fix"), Some("BAA-42".to_string()));
    assert_eq!(b("BAA-42/fix"), Some("BAA-42".to_string()));
    assert_eq!(b("fix-BAA-42"), None);
    assert_eq!(b("/x/AB-9"), Some("AB-9".to_string()));
}

#[test]
fn closing_numbers_cover_keywords_and_limits() {
    let n = |s: &str| closing_numbers(&s.chars().collect());
    assert_eq!(n("fix #1 FIXES #2 fixed\t#3 close #4 closes #5 closed #6"), vec![1, 2, 3, 4, 5, 6]);
    assert_eq!(n("resolve #7 Resolves #8 resolved #9 prefix #10"), vec![7, 8, 9, 10]);
    assert_eq!(n("fixes#1 fixes # 2 fixing #3 closes #0"), Vec::<i32>::new());
    assert_eq!(n("fixes #2147483647 fixes #2147483648 fixes #0042"), vec![2147483647, 42]);
}

#[test]
fn branch_name_from_display_id_and_title() {
    assert_eq!(generate_branch_name("BAA-42", "Fix Login Bug!!"), "baa-42-fix-login-bug");
    assert_eq!(generate_branch_name("BAA-42", "Fix login bug"), "baa-42-fix-login-bug");
    assert_eq!(generate_branch_name("X-1", "--a  b--"), "x-1-a-b");
    assert_eq!(generate_branch_name("X-1", "!!!"), "x-1-");
}

#[test]
fn long_title_slug_is_capped_without_trailing_dash() {
    let title = "ab ".repeat(67) + "c";
    assert!(title.chars().count() >= 200);
    let name = generate_branch_name("BAA-1", &title);
    let slug = name.strip_prefix("baa-1-").unwrap();
    assert!(slug.chars().count() <= 50);
    assert!(!slug.ends_with('-'));
    assert_eq!(slug, "ab-ab-ab-ab-ab-ab-ab-ab-ab-ab-ab-ab-ab-ab-ab-ab-ab");
}

#[test]
fn slug_keeps_unicode_letters_lowercased() {
    assert_eq!(generate_branch_name("ÄB-1", "Ünïcode Straße"), "äb-1-ünïcode-straße");
}

#[test]
fn trim_removes_unicode_whitespace() {
    assert_eq!(trim("\u{3000} x y \u{85}"), "x y");
}
