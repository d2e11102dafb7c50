use buwiz::domain::orus::ProofMethod;
use buwiz::domain::profile_store::InMemoryTaxProfileStore;
use buwiz::domain::tax_profile::{
    AccountHolder, ClaimStatus, CloudTaxProfileFacts, OwnershipStatus, TaxProfile, TaxProfileCommand,
    TaxProfileError, TaxProfileEvent, TaxpayerType, VerificationStatus,
};
use buwiz::domain::tin::{BranchCode, RegistrationKey};
use buwiz::domain::tin_identity::{tin_last4, TinIdentityHash};

const PEPPER: &[u8] = b"pepper";

fn facts(name: &str) -> CloudTaxProfileFacts {
    CloudTaxProfileFacts {
        registered_name: name.to_owned(),
        rdo_code: "039".to_owned(),
        line_of_business: "Software".to_owned(),
        registered_address: "Makati".to_owned(),
        zip_code: "1200".to_owned(),
        phone: "02-1234567".to_owned(),
        email: "owner@example.test".to_owned(),
        taxpayer_type: TaxpayerType::Individual,
        tax_classification: None,
        is_vat_registered: false,
        eopt_tier: None,
        business_start_date: None,
        birth_date: None,
        atc_codes: Vec::new(),
    }
}

fn key() -> RegistrationKey {
    RegistrationKey::parse("123456789", "00000").unwrap()
}

fn identity() -> TinIdentityHash {
    let key = key();
    TinIdentityHash::compute(PEPPER, &key.tin_root, &key.branch_code)
}

fn last4() -> String {
    tin_last4(&key().tin_root)
}

fn personal(user: &str) -> AccountHolder {
    AccountHolder::Personal { user_id: user.to_owned() }
}

fn org(id: &str) -> AccountHolder {
    AccountHolder::Organization { organization_id: id.to_owned() }
}

fn create(id: &str, holder: AccountHolder, actor: &str, name: &str) -> TaxProfileCommand {
    TaxProfileCommand::RegisterTaxProfile {
        profile_id: id.to_owned(),
        account_id: actor.to_owned(),
        holder,
        facts: facts(name),
        display_name: name.to_owned(),
        tin_hash: identity(),
        tin_last4: last4(),
        branch_code: BranchCode::HEAD_OFFICE.to_owned(),
        actor_user_id: actor.to_owned(),
        occurred_at: "2026-01-01T00:00:00Z".to_owned(),
    }
}

#[test]
fn personal_create_is_exclusive_uuid_sot() {
    let mut store = InMemoryTaxProfileStore::default();
    let (state, rev) = store
        .execute("tp-1", create("tp-1", personal("alice"), "alice", "Alice"), 0)
        .unwrap();
    assert_eq!(rev, 1);
    assert_eq!(state.profile_id.as_deref(), Some("tp-1"));
    assert_eq!(state.tin_last4.as_deref(), Some("6789"));
    assert_eq!(state.account_id.as_deref(), Some("alice"));
    assert_eq!(state.branch_code.as_deref(), Some("00000"));
    assert!(!state.is_archived);
    assert_eq!(state.ownership, Some(OwnershipStatus::PersonalExclusive));
    assert_eq!(state.holder, Some(personal("alice")));
    assert_eq!(state.claim_status_for("alice"), ClaimStatus::Owned);
    assert_eq!(state.identity_hash, Some(identity()));
}

#[test]
fn hashed_identity_blocks_second_holder_on_a_different_uuid() {
    let mut store = InMemoryTaxProfileStore::default();
    store
        .execute("tp-1", create("tp-1", personal("alice"), "alice", "Alice"), 0)
        .unwrap();
    let err = store
        .execute("tp-2", create("tp-2", personal("bob"), "bob", "Bob"), 0)
        .unwrap_err();
    assert!(matches!(err, TaxProfileError::AlreadyHeld { .. }));
}

#[test]
fn company_may_hold_until_owner_claims() {
    let mut store = InMemoryTaxProfileStore::default();
    store
        .execute("tp-1", create("tp-1", org("firm-1"), "bookkeeper", "Client Co"), 0)
        .unwrap();
    let (state, _) = store
        .execute(
            "tp-1",
            TaxProfileCommand::Claim {
                claimant: personal("alice"),
                actor_user_id: "alice".into(),
                identity_hash: identity(),
                proof_method: ProofMethod::FakeOrus,
            },
            1,
        )
        .unwrap();
    assert_eq!(state.ownership, Some(OwnershipStatus::PersonalExclusive));
    assert_eq!(state.verified_owner_user_id.as_deref(), Some("alice"));
    assert_eq!(state.verification, VerificationStatus::Verified);
    assert_eq!(state.claim_status_for("alice"), ClaimStatus::Owned);
}

#[test]
fn verified_owner_can_reclaim_from_company_anytime() {
    let mut store = InMemoryTaxProfileStore::default();
    store
        .execute("tp-1", create("tp-1", org("firm-1"), "bookkeeper", "Client Co"), 0)
        .unwrap();
    store
        .execute(
            "tp-1",
            TaxProfileCommand::Claim {
                claimant: personal("alice"),
                actor_user_id: "alice".into(),
                identity_hash: identity(),
                proof_method: ProofMethod::FakeOrus,
            },
            1,
        )
        .unwrap();
    store
        .execute(
            "tp-1",
            TaxProfileCommand::Transfer { new_holder: org("firm-2"), actor_user_id: "alice".into() },
            2,
        )
        .unwrap();
    let (state, _) = store
        .execute(
            "tp-1",
            TaxProfileCommand::Reclaim {
                actor_user_id: "alice".into(),
                identity_hash: identity(),
                proof_method: ProofMethod::FakeOrus,
            },
            3,
        )
        .unwrap();
    assert_eq!(state.holder, Some(personal("alice")));
    assert_eq!(state.ownership, Some(OwnershipStatus::PersonalExclusive));
}

#[test]
fn concurrent_creates_fail_on_expected_revision() {
    let mut store = InMemoryTaxProfileStore::default();
    store
        .execute("tp-1", create("tp-1", org("firm-1"), "bookkeeper", "Client Co"), 0)
        .unwrap();
    let err = store
        .execute("tp-1", create("tp-1", org("firm-2"), "other", "Other"), 0)
        .unwrap_err();
    assert_eq!(err, TaxProfileError::ConcurrentModification);
}

#[test]
fn cannot_claim_from_personal_exclusive_holder() {
    let mut store = InMemoryTaxProfileStore::default();
    store
        .execute("tp-1", create("tp-1", personal("alice"), "alice", "Alice"), 0)
        .unwrap();
    let err = store
        .execute(
            "tp-1",
            TaxProfileCommand::Claim {
                claimant: personal("bob"),
                actor_user_id: "bob".into(),
                identity_hash: identity(),
                proof_method: ProofMethod::FakeOrus,
            },
            1,
        )
        .unwrap_err();
    assert_eq!(err, TaxProfileError::ClaimRequiresCompanyHold);
}

#[test]
fn proof_must_match_hashed_identity() {
    let mut store = InMemoryTaxProfileStore::default();
    store
        .execute("tp-1", create("tp-1", org("firm-1"), "bookkeeper", "Client Co"), 0)
        .unwrap();
    let other = RegistrationKey::parse("987654321", "00000").unwrap();
    let bad = TinIdentityHash::compute(PEPPER, &other.tin_root, &other.branch_code);
    let err = store
        .execute(
            "tp-1",
            TaxProfileCommand::Claim {
                claimant: personal("alice"),
                actor_user_id: "alice".into(),
                identity_hash: bad,
                proof_method: ProofMethod::FakeOrus,
            },
            1,
        )
        .unwrap_err();
    assert_eq!(err, TaxProfileError::ProofMismatch);
}

#[test]
fn patch_is_last_write_wins_on_updated_at() {
    let mut store = InMemoryTaxProfileStore::default();
    store
        .execute("tp-1", create("tp-1", personal("alice"), "alice", "Alice"), 0)
        .unwrap();
    let (state, _) = store
        .execute(
            "tp-1",
            TaxProfileCommand::UpdateTaxProfileIdentity {
                display_name: Some("Alice Corp".into()),
                facts: None,
                expected_updated_at: Some("2026-01-01T00:00:00Z".into()),
                actor_user_id: "alice".into(),
                occurred_at: "2026-01-02T00:00:00Z".into(),
            },
            1,
        )
        .unwrap();
    assert_eq!(state.display_name.as_deref(), Some("Alice Corp"));
    let err = store
        .execute(
            "tp-1",
            TaxProfileCommand::UpdateTaxProfileIdentity {
                display_name: Some("stale".into()),
                facts: None,
                expected_updated_at: Some("2026-01-01T00:00:00Z".into()),
                actor_user_id: "alice".into(),
                occurred_at: "2026-01-03T00:00:00Z".into(),
            },
            2,
        )
        .unwrap_err();
    assert_eq!(err, TaxProfileError::StaleWrite);
}

#[test]
fn identity_hash_never_changes_on_metadata_patch() {
    let mut store = InMemoryTaxProfileStore::default();
    store
        .execute("tp-1", create("tp-1", personal("alice"), "alice", "Alice"), 0)
        .unwrap();
    let (state, _) = store
        .execute(
            "tp-1",
            TaxProfileCommand::UpdateTaxProfileIdentity {
                display_name: Some("Renamed".into()),
                facts: Some(facts("Renamed")),
                expected_updated_at: Some("2026-01-01T00:00:00Z".into()),
                actor_user_id: "alice".into(),
                occurred_at: "2026-01-02T00:00:00Z".into(),
            },
            1,
        )
        .unwrap();
    assert_eq!(state.identity_hash, Some(identity()));
    assert_eq!(state.tin_last4.as_deref(), Some("6789"));
}

#[test]
fn archive_and_restore_require_account_id() {
    let mut store = InMemoryTaxProfileStore::default();
    store
        .execute("tp-1", create("tp-1", personal("alice"), "alice", "Alice"), 0)
        .unwrap();
    let err = store
        .execute(
            "tp-1",
            TaxProfileCommand::ArchiveTaxProfile {
                actor_user_id: "bob".into(),
                occurred_at: "2026-01-03T00:00:00Z".into(),
            },
            1,
        )
        .unwrap_err();
    assert_eq!(err, TaxProfileError::NotHolder);
    let (state, _) = store
        .execute(
            "tp-1",
            TaxProfileCommand::ArchiveTaxProfile {
                actor_user_id: "alice".into(),
                occurred_at: "2026-01-03T00:00:00Z".into(),
            },
            1,
        )
        .unwrap();
    assert!(state.is_archived);
    let err = store
        .execute(
            "tp-1",
            TaxProfileCommand::UpdateTaxProfileIdentity {
                display_name: Some("nope".into()),
                facts: None,
                expected_updated_at: None,
                actor_user_id: "alice".into(),
                occurred_at: "2026-01-04T00:00:00Z".into(),
            },
            2,
        )
        .unwrap_err();
    assert_eq!(err, TaxProfileError::AlreadyArchived);
    let (state, _) = store
        .execute(
            "tp-1",
            TaxProfileCommand::RestoreTaxProfile {
                actor_user_id: "alice".into(),
                occurred_at: "2026-01-04T00:00:00Z".into(),
            },
            2,
        )
        .unwrap();
    assert!(!state.is_archived);
}

#[test]
fn legacy_created_event_payload_still_applies() {
    // A registration recorded before account ids and branch codes were stored.
    let event = TaxProfileEvent::TaxProfileRegistered {
        profile_id: "tp-legacy".to_owned(),
        account_id: String::new(),
        tin_hash: identity(),
        tin_last4: "6789".to_owned(),
        branch_code: String::new(),
        display_name: "Legacy".to_owned(),
        holder: personal("alice"),
        ownership: OwnershipStatus::PersonalExclusive,
        verification: VerificationStatus::Unverified,
        facts: facts("Legacy"),
        actor_user_id: "alice".to_owned(),
        occurred_at: "2026-01-01T00:00:00Z".to_owned(),
    };
    assert_eq!(event.event_type(), "tax_profile.registered");
    let mut state = TaxProfile::new();
    state.apply(&event);
    assert_eq!(state.profile_id.as_deref(), Some("tp-legacy"));
    assert_eq!(state.account_id.as_deref(), Some("alice"));
    assert_eq!(state.branch_code.as_deref(), Some("00000"));
    assert_eq!(state.identity_hash, Some(identity()));
}

#[test]
fn computed_identity_hash_parses_back() {
    let hash = identity();
    assert_eq!(TinIdentityHash::parse(hash.as_str()), Ok(hash.clone()));
    assert_eq!(TinIdentityHash::parse(&format!("  {}  ", hash.as_str().to_uppercase())), Ok(hash));
}
