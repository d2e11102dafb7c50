use buwiz::domain::desktop_session::{DesktopGrant, DesktopSessionCommand, DesktopSessionEvent};
use buwiz::domain::oauth_client::desktop_redirect_uri_allowed;
use buwiz::domain::orus::{
    FakeOrusVerifier, OrusError, ProofMethod, TinOwnershipVerifier, UnconfiguredOrusVerifier,
};
use buwiz::domain::queries::TaxProfileQuery;
use buwiz::domain::tin::{BranchCode, RegistrationKey, TinRoot};
use buwiz::domain::tin_identity::{same_personal_tin, tin_last4, TinIdentityHash};
use buwiz::domain::v1_sync::{SyncCommand, SyncError, SyncEvent};

#[test]
fn parses_head_office_and_legacy_three_digit_branch() {
    let key = RegistrationKey::parse("010558054", "00000").unwrap();
    assert_eq!(key.compact(), "01055805400000");
    assert_eq!(key.stream_id(), "010558054-00000");
    assert!(key.branch_code.is_head_office());

    let legacy = RegistrationKey::parse("010-558-054", "000").unwrap();
    assert_eq!(legacy.branch_code.as_str(), "00000");
}

#[test]
fn rejects_wrong_lengths() {
    assert!(TinRoot::parse("12345678").is_err());
    assert!(BranchCode::parse("12").is_err());
}

#[test]
fn last4_is_suffix_of_root() {
    let root = TinRoot::parse("123456789").unwrap();
    assert_eq!(tin_last4(&root), "6789");
}

#[test]
fn hash_is_stable_and_not_raw_tin() {
    let root = TinRoot::parse("123456789").unwrap();
    let branch = BranchCode::parse("00000").unwrap();
    let hash = TinIdentityHash::compute(b"pepper", &root, &branch);
    assert_eq!(hash.0.len(), 64);
    assert!(!hash.0.contains("123456789"));
    assert_eq!(hash, TinIdentityHash::compute(b"pepper", &root, &branch));
    assert_ne!(hash, TinIdentityHash::compute(b"other", &root, &branch));
}

#[test]
fn personal_tin_probe_matches_existing_branch_hash() {
    let root = TinRoot::parse("123456789").unwrap();
    let other = TinRoot::parse("987654321").unwrap();
    let head = BranchCode::parse("00000").unwrap();
    let annex = BranchCode::parse("00001").unwrap();
    let hash = TinIdentityHash::compute(b"pepper", &root, &head);
    assert!(same_personal_tin(b"pepper", &head, &hash, &root));
    assert!(!same_personal_tin(b"pepper", &head, &hash, &other));
    assert_ne!(
        TinIdentityHash::compute(b"pepper", &root, &head),
        TinIdentityHash::compute(b"pepper", &root, &annex)
    );
}

#[test]
fn fake_verifier_issues_proof() {
    let key = RegistrationKey::parse("123456789", "00000").unwrap();
    let proof = FakeOrusVerifier.verify(&key, "user-1").expect("fake verifier");
    assert_eq!(proof.method, ProofMethod::FakeOrus);
    assert_eq!(proof.claimant_user_id, "user-1");
}

#[test]
fn unconfigured_verifier_fails_closed() {
    let key = RegistrationKey::parse("123456789", "00000").unwrap();
    assert!(matches!(
        UnconfiguredOrusVerifier.verify(&key, "user-1"),
        Err(OrusError::NotConfigured)
    ));
}

#[test]
fn v1_query_names_match_the_command_set() {
    assert_eq!(
        TaxProfileQuery::GetTaxProfile { tax_profile_id: "x".into() }.name(),
        "GetTaxProfile"
    );
    assert_eq!(
        TaxProfileQuery::ListTaxProfilesForAccount { account_id: "a".into() }.name(),
        "ListTaxProfilesForAccount"
    );
    assert_eq!(
        TaxProfileQuery::GetFilingByPeriod {
            tax_profile_id: "x".into(),
            form_code: "1701Q".into(),
            period_key: "2026-Q1".into(),
        }
        .name(),
        "GetFilingByPeriod"
    );
}

#[test]
fn issue_desktop_session_never_carries_tokens() {
    let event = DesktopSessionCommand::IssueDesktopSession {
        user_id: "user-1".into(),
        session_id: "sess-1".into(),
        grant: DesktopGrant::DeviceCode,
        occurred_at: "2026-01-01T00:00:00Z".into(),
    }
    .handle()
    .unwrap();
    let encoded = format!("{event:?}");
    assert!(!encoded.contains("refresh"));
    assert!(!encoded.contains("access_token"));
    assert_eq!(event.event_type(), "desktop.session_issued");
}

#[test]
fn register_and_revoke_device_round_trip() {
    let registered = DesktopSessionCommand::RegisterDevice {
        client_id: "buwiz-desktop".into(),
        occurred_at: "2026-01-01T00:00:00Z".into(),
    }
    .handle()
    .unwrap();
    assert!(matches!(registered, DesktopSessionEvent::DeviceRegistered { .. }));
    let revoked = DesktopSessionCommand::RevokeDevice {
        session_id: "sess-1".into(),
        actor_user_id: "user-1".into(),
        occurred_at: "2026-01-01T00:00:01Z".into(),
    }
    .handle()
    .unwrap();
    assert_eq!(revoked.event_type(), "desktop.device_revoked");
}

#[test]
fn allows_custom_scheme_and_loopback() {
    assert!(desktop_redirect_uri_allowed("buwiz://auth/callback", &[]));
    assert!(desktop_redirect_uri_allowed("http://127.0.0.1:9876/callback", &[]));
    assert!(desktop_redirect_uri_allowed("http://localhost:43110/auth", &[]));
    assert!(desktop_redirect_uri_allowed("http://[::1]:8080/", &[]));
}

#[test]
fn rejects_public_http_hosts() {
    assert!(!desktop_redirect_uri_allowed("https://evil.example/callback", &[]));
    assert!(!desktop_redirect_uri_allowed("http://example.com/", &[]));
}

#[test]
fn extra_allowlist_is_honored() {
    assert!(desktop_redirect_uri_allowed(
        "buwiz://dev/callback",
        &["buwiz://dev/callback".to_owned()]
    ));
    assert!(!desktop_redirect_uri_allowed("buwiz://dev/callback", &[]));
}

fn clone_cmd(dest_empty: bool, actor: &str, owner: &str) -> SyncCommand {
    SyncCommand::CloneProfileYear {
        tax_profile_id: "tp-1".into(),
        from_year: Some(2025),
        to_year: 2026,
        dest_forms_empty: dest_empty,
        actor_account_id: actor.into(),
        owner_account_id: owner.into(),
        occurred_at: "2026-01-01T00:00:00Z".into(),
    }
}

#[test]
fn clone_copies_forms_only_when_dest_empty() {
    let copied = clone_cmd(true, "alice", "alice").handle().unwrap();
    assert!(matches!(copied, SyncEvent::ProfileYearCloned { copied_forms: true, .. }));
    let skipped = clone_cmd(false, "alice", "alice").handle().unwrap();
    assert!(matches!(skipped, SyncEvent::ProfileYearCloned { copied_forms: false, .. }));
}

#[test]
fn enqueue_requires_account_and_active_form() {
    let err = SyncCommand::EnqueueFiling {
        form_draft_id: "d1".into(),
        tax_profile_id: "tp-1".into(),
        form_active: true,
        actor_account_id: "bob".into(),
        owner_account_id: "alice".into(),
        occurred_at: "2026-01-01T00:00:00Z".into(),
    }
    .handle()
    .unwrap_err();
    assert_eq!(err, SyncError::NotHolder);
    let err = SyncCommand::EnqueueFiling {
        form_draft_id: "d1".into(),
        tax_profile_id: "tp-1".into(),
        form_active: false,
        actor_account_id: "alice".into(),
        owner_account_id: "alice".into(),
        occurred_at: "2026-01-01T00:00:00Z".into(),
    }
    .handle()
    .unwrap_err();
    assert!(matches!(err, SyncError::Invalid { .. }));
    let queued = SyncCommand::EnqueueFiling {
        form_draft_id: "d1".into(),
        tax_profile_id: "tp-1".into(),
        form_active: true,
        actor_account_id: "alice".into(),
        owner_account_id: "alice".into(),
        occurred_at: "2026-01-01T00:00:00Z".into(),
    }
    .handle()
    .unwrap();
    assert_eq!(queued.event_type(), "filing.queued");
}

#[test]
fn upsert_draft_bumps_rev_and_marks_saved_once() {
    let event = SyncCommand::UpsertFormDraft {
        tax_profile_id: "tp-1".into(),
        form_code: "1701Q".into(),
        tax_year: 2026,
        period_key: "2026-Q1".into(),
        payload: "{\"a\":1}".into(),
        client_rev: 3,
        actor_account_id: "alice".into(),
        owner_account_id: "alice".into(),
        occurred_at: "2026-01-01T00:00:00Z".into(),
    }
    .handle()
    .unwrap();
    assert!(matches!(event, SyncEvent::FormDraftUpserted { rev: 4, saved_once: true, .. }));
}
