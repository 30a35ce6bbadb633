use baaton_api::auth::AuthUser;
use baaton_api::models::{default_permissions, make_short_code};
use baaton_api::notify::parse_mentions;
use baaton_api::triage::{is_active_status, is_backlog_status, normalize, priority_rank};

#[test]
fn test_parse_mentions() {
    let text = "Hey @user_abc123 and @user_XYZ789, check this out!";
    let mentions = parse_mentions(text);
    assert_eq!(mentions, vec!["user_abc123", "user_XYZ789"]);
}

#[test]
fn test_parse_mentions_empty() {
    assert!(parse_mentions("no mentions here").is_empty());
}

#[test]
fn test_parse_mentions_duplicate() {
    let text = "@user_abc @user_abc";
    let mentions = parse_mentions(text);
    assert_eq!(mentions.len(), 2);
}

#[test]
fn mention_needs_a_character_after_prefix() {
    assert!(parse_mentions("@user_ and @user_!").is_empty());
    assert_eq!(parse_mentions("x@user_a1-b"), vec!["user_a1"]);
}

fn user(display_name: Option<&str>, email: Option<&str>) -> AuthUser {
    AuthUser {
        user_id: "u1".to_string(),
        org_id: None,
        org_slug: None,
        org_role: None,
        email: email.map(|s| s.to_string()),
        display_name: display_name.map(|s| s.to_string()),
    }
}

#[test]
fn label_prefers_trimmed_display_name() {
    assert_eq!(user(Some("  Ada  "), Some("a@x.io")).created_by_label(), Some("Ada".to_string()));
}

#[test]
fn label_falls_back_to_email_then_none() {
    assert_eq!(user(Some(" \t "), Some(" a@x.io\n")).created_by_label(), Some("a@x.io".to_string()));
    assert_eq!(user(None, Some("   ")).created_by_label(), None);
    assert_eq!(user(None, None).created_by_label(), None);
}

#[test]
fn short_code_strips_prefix_and_keeps_eight() {
    assert_eq!(make_short_code("orginv_2abcdefghijk"), "2abcdefg");
    assert_eq!(make_short_code("xyz"), "xyz");
    assert_eq!(make_short_code("inv_123456789"), "inv_1234");
}

#[test]
fn api_keys_default_to_read_and_write() {
    assert_eq!(default_permissions(), vec!["read".to_string(), "write".to_string()]);
}

#[test]
fn triage_helpers() {
    assert_eq!(normalize("  In_Review "), "in_review");
    assert_eq!(priority_rank(Some(" URGENT")), 0);
    assert_eq!(priority_rank(Some("High")), 1);
    assert_eq!(priority_rank(Some("medium")), 2);
    assert_eq!(priority_rank(Some("low ")), 3);
    assert_eq!(priority_rank(Some("whenever")), 4);
    assert_eq!(priority_rank(None), 4);
    assert!(is_active_status("In_Progress"));
    assert!(!is_active_status("done"));
    assert!(is_backlog_status(" Backlog"));
    assert!(!is_backlog_status("in_review"));
}
