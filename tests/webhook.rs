use baaton_api::processor::{
    branch_from_ref, event_kind, event_outcome, installation_change, repo_owner, retry_eligible,
    EventKind, EventStatus, InstallationStatus, ProcessError,
};
use baaton_api::receiver::receive_webhook;
use baaton_api::signature::verify_signature;
use hmac::{Hmac, Mac};
use sha2::Sha256;

fn sign(secret: &[u8], body: &[u8]) -> String {
    let mut mac = <Hmac<Sha256> as Mac>::new_from_slice(secret).unwrap();
    mac.update(body);
    format!("sha256={}", hex::encode(mac.finalize().into_bytes()))
}

#[test]
fn signature_accepts_only_the_right_mac() {
    let body = br#"{"action":"opened"}"#;
    let good = sign(b"s3cret", body);
    assert!(verify_signature(body, b"s3cret", &good));
    assert!(verify_signature(body, b"s3cret", &good.to_uppercase().replace("SHA256=", "sha256=")));
    assert!(!verify_signature(body, b"other", &good));
    assert!(!verify_signature(b"{}", b"s3cret", &good));
    assert!(!verify_signature(body, b"s3cret", &good[7..]));
    assert!(!verify_signature(body, b"s3cret", &good[..good.len() - 1]));
    assert!(!verify_signature(body, b"s3cret", "sha256=zz"));
    assert!(!verify_signature(body, b"s3cret", ""));
}

#[test]
fn bad_signature_is_unauthorised_and_not_stored() {
    let body = b"{}";
    let bad = sign(b"wrong", body);
    let r = receive_webhook(Some(&bad), Some("push"), Some("d1"), body, b"s3cret", false, true);
    assert_eq!((r.status, r.store, r.process), (401, false, false));
}

#[test]
fn missing_headers_are_rejected() {
    let body = b"{}";
    let good = sign(b"k", body);
    assert_eq!(receive_webhook(None, Some("push"), Some("d"), body, b"k", false, true).status, 401);
    assert_eq!(receive_webhook(Some(&good), None, Some("d"), body, b"k", false, true).status, 400);
    assert_eq!(receive_webhook(Some(&good), Some("push"), None, body, b"k", false, true).status, 400);
}

#[test]
fn replayed_delivery_is_acknowledged_once() {
    let body = b"{}";
    let good = sign(b"k", body);
    let first = receive_webhook(Some(&good), Some("push"), Some("d"), body, b"k", false, true);
    assert_eq!((first.status, first.store, first.process), (200, true, true));
    let again = receive_webhook(Some(&good), Some("push"), Some("d"), body, b"k", true, true);
    assert_eq!((again.status, again.store, again.process), (200, false, false));
    let bad_json = receive_webhook(Some(&good), Some("push"), Some("e"), body, b"k", false, false);
    assert_eq!((bad_json.status, bad_json.store), (400, false));
}

#[test]
fn event_kinds() {
    assert_eq!(event_kind("installation"), EventKind::Installation);
    assert_eq!(event_kind("installation_repositories"), EventKind::InstallationRepositories);
    assert_eq!(event_kind("pull_request"), EventKind::PullRequest);
    assert_eq!(event_kind("pull_request_review"), EventKind::PullRequestReview);
    assert_eq!(event_kind("push"), EventKind::Push);
    assert_eq!(event_kind("issues"), EventKind::Issues);
    assert_eq!(event_kind("star"), EventKind::Other);
}

#[test]
fn installation_actions() {
    assert_eq!(installation_change("deleted", None), Err(ProcessError::MissingInstallationId));
    let removed = installation_change("deleted", Some(9)).unwrap().unwrap();
    assert_eq!((removed.installation_id, removed.status, removed.deactivate_mappings), (9, InstallationStatus::Removed, true));
    let s = installation_change("suspend", None).unwrap().unwrap();
    assert_eq!((s.installation_id, s.status), (0, InstallationStatus::Suspended));
    let u = installation_change("unsuspend", Some(3)).unwrap().unwrap();
    assert_eq!(u.status, InstallationStatus::Active);
    assert_eq!(installation_change("created", Some(3)), Ok(None));
}

#[test]
fn owners_and_branches() {
    assert_eq!(repo_owner("org/repo"), "org");
    assert_eq!(repo_owner("solo"), "solo");
    assert_eq!(repo_owner("/x"), "");
    assert_eq!(branch_from_ref("refs/heads/baa-42-fix"), "baa-42-fix");
    assert_eq!(branch_from_ref("refs/tags/v1"), "refs/tags/v1");
}

#[test]
fn event_fails_for_good_on_third_attempt() {
    let ok = event_outcome(Ok(()), 1);
    assert_eq!((ok.status, ok.retry_count, ok.error_message), (EventStatus::Completed, 1, None));
    let first = event_outcome(Err("boom".to_string()), 0);
    assert_eq!((first.status, first.retry_count), (EventStatus::Pending, 1));
    assert_eq!(first.error_message.as_deref(), Some("boom"));
    assert_eq!(event_outcome(Err("x".to_string()), 1).status, EventStatus::Pending);
    let last = event_outcome(Err("x".to_string()), 2);
    assert_eq!((last.status, last.retry_count), (EventStatus::Failed, 3));
    assert!(retry_eligible(EventStatus::Pending, 1));
    assert!(!retry_eligible(EventStatus::Pending, 0));
    assert!(!retry_eligible(EventStatus::Failed, 2));
}
