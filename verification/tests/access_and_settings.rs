use buwiz::application::chrome::settings_section_href;
use buwiz::application::chrome::{onboarding_redirect_needed, switcher_item_meta, user_menu_identity, workspace_slug_suggestion, workspace_switcher};
use buwiz::contracts::auth::SessionView;
use buwiz::application::organization::{can_deactivate_workspace, deactivation_confirmed, invite_form_submission, workspace_name_submission};
use buwiz::contracts::organization::WorkspaceRoleOption;
use buwiz::application::organization::{role_form_submission, role_row_name};
use buwiz::application::tax_profile::{parse_registration, verify_tin_ownership};
use buwiz::domain::orus::ProofMethod;
use buwiz::application::dashboard::{activity_warning, dashboard_snapshot, DashboardSnapshotParts};
use buwiz::contracts::resources::{QueryMeta, QueryResult, ResourceKind};
use buwiz::application::admin::{audit_page_limit, audit_scope, validate_redirect_allowlist};
use buwiz::application::auth::{
    credentials_configured, development_oauth_callback_bypass_enabled, development_oauth_email,
    oauth_provider_ready, provider_credential_requirements, provider_enabled,
};
use buwiz::application::dashboard::{
    dashboard_http_allow_private, prepare_layout_save, revision_precondition, set_widget_note,
    validate_note_update,
};
use buwiz::application::ingress::{
    loopback_public_base_url, public_base_url, require_loopback_public_base_url,
    validate_browser_origin,
};
use buwiz::application::organization::{
    humanize_permission_id, is_valid_role_id, slugify_role_id, workspace_settings_context,
};
use buwiz::application::session::{
    check_csrf_candidate, csrf_session_id, token_grants_permission, token_session_view,
};
use buwiz::application::tax_profile::{
    check_actor_status, check_identity_unchanged, check_not_stale, ensure_holder_or_org,
    me_response, patch_identity_fields, profile_display_name, resolve_holder,
    tax_profile_list_org, tax_profile_read_access, HolderAccess,
};
use buwiz::application::vault::{
    legacy_migrate_organization, legacy_migrate_report, pick_vault_workspace, session_vault_org,
    vault_org_target, vault_reveal_step_up, VaultOrgTarget,
};
use buwiz::auth_product::dev::{
    captured_action_url, captured_mail_kind, development_auth_tools_enabled,
    development_mail_capture_enabled, require_development_mail_capture, CapturedMailKind,
};
use buwiz::auth_product::infra::public_session_id;
use buwiz::auth_product::key_settings::{
    check_vault_key_configured, database_url, jwt_key_source, outbox_key_source,
    outbox_key_version, passkey_attachment, passkey_relying_party, recovery_code_pepper,
    signing_key_version, signing_keys_need_sync, transactional_mail_settings,
    trusted_ingress_audience, trusted_ingress_key, JwtKeySource, KeyMaterial, KeySource,
    PasskeyAttachment,
};
use buwiz::auth_product::providers::{provider_display_name, provider_summary};
use buwiz::auth_product::token_cache::{token_cache_key, VerifiedTokenCache};
use buwiz::contracts::auth::{AuthProviderSummary, TokenVerifyResponse};
use buwiz::contracts::dashboard::{
    BoardContainerKind, BoardNode, DashboardLayout, DashboardNoteUpdate, DashboardWidgetKind,
    HttpDisplayMode, LegacyDashboardWidget, WidgetBind,
};
use buwiz::contracts::organization::{
    InvitationSummary, MembershipSummary, OrganizationSummary, RoleSummary,
    WorkspaceLegacyMigrateRequest,
};
use buwiz::domain::tax_profile::{AccountHolder, TaxProfile, TaxProfileError};
use buwiz::domain::tin_identity::TinIdentityHash;
use buwiz::error::AuthStackError;

fn validation(message: &str) -> AuthStackError {
    AuthStackError::Validation { message: message.to_owned() }
}

fn configuration(message: &str) -> AuthStackError {
    AuthStackError::Configuration { message: message.to_owned() }
}

fn s(v: &str) -> Option<String> {
    Some(v.to_owned())
}

fn strings(v: &[&str]) -> Vec<String> {
    v.iter().map(|x| (*x).to_owned()).collect()
}

fn org(id: &str, role: &str, permissions: &[&str]) -> OrganizationSummary {
    OrganizationSummary {
        organization_id: id.to_owned(),
        name: format!("Org {id}"),
        slug: format!("slug-{id}"),
        status: "active".to_owned(),
        current_user_role: role.to_owned(),
        permissions: strings(permissions),
        created_at_ms: 42,
    }
}

// ---- role ids -------------------------------------------------------------------------

#[test]
fn role_names_become_lowercase_dashed_ids() {
    assert_eq!(slugify_role_id("Billing Admin"), "billing-admin");
    assert_eq!(slugify_role_id("  Ops__Team!! "), "ops__team");
    assert_eq!(slugify_role_id("--Hello"), "hello");
    assert_eq!(slugify_role_id("a - b"), "a-b");
    assert_eq!(slugify_role_id("Übersicht 2"), "bersicht-2");
    assert_eq!(slugify_role_id("!!!"), "");
    assert_eq!(slugify_role_id(&"a".repeat(200)), "a".repeat(128));
}

#[test]
fn suggested_role_ids_are_valid_role_ids() {
    for name in ["Billing Admin", "  Ops__Team!! ", "a - b", "Release.Managers", "x"] {
        let id = slugify_role_id(name);
        assert!(is_valid_role_id(&id), "{name} -> {id}");
    }
}

#[test]
fn role_id_validity() {
    assert!(is_valid_role_id("billing-admin"));
    assert!(is_valid_role_id("a.b_c-d9"));
    assert!(!is_valid_role_id(""));
    assert!(!is_valid_role_id("a b"));
    assert!(!is_valid_role_id("rôle"));
    assert!(is_valid_role_id(&"r".repeat(128)));
    assert!(!is_valid_role_id(&"r".repeat(129)));
}

#[test]
fn permission_ids_read_as_labels() {
    assert_eq!(humanize_permission_id("workspace.member.manage"), "Workspace Member Manage");
    assert_eq!(humanize_permission_id("a..b"), "A B");
    assert_eq!(humanize_permission_id(".audit."), "Audit");
    assert_eq!(humanize_permission_id(""), "");
}

// ---- browser origins and loopback -----------------------------------------------------

#[test]
fn browser_mutations_need_a_matching_origin() {
    assert_eq!(
        validate_browser_origin(None, "http://localhost:3008"),
        Err(validation("browser mutation origin is required"))
    );
    assert_eq!(validate_browser_origin(Some("http://127.0.0.1:3008"), "http://localhost:3008/"), Ok(()));
    assert_eq!(
        validate_browser_origin(Some("https://evil.example"), "http://localhost:3008"),
        Err(validation("browser mutation origin is not allowed"))
    );
}

#[test]
fn loopback_base_urls_are_recognised() {
    assert!(loopback_public_base_url("http://localhost:3008"));
    assert!(loopback_public_base_url(" http://[::1]:3008/ "));
    assert!(loopback_public_base_url("http://127.0.0.1"));
    assert!(!loopback_public_base_url("https://app.example.com"));
    assert!(!loopback_public_base_url("not a url"));
    assert_eq!(require_loopback_public_base_url("mail capture", "http://localhost:3008"), Ok(()));
    assert_eq!(
        require_loopback_public_base_url("mail capture", "https://app.example.com"),
        Err(configuration("mail capture requires a loopback AUTH_PUBLIC_BASE_URL"))
    );
    assert_eq!(public_base_url(None), "http://localhost:3008");
    assert_eq!(public_base_url(s("https://x.example")), "https://x.example");
}

// ---- verified-token cache -------------------------------------------------------------

#[test]
fn cached_verification_is_found_until_it_expires() {
    let mut cache: VerifiedTokenCache<String> = VerifiedTokenCache::new(4);
    cache.store("token-a", 100, "alice".to_owned());
    assert_eq!(cache.lookup("token-a", 50), Some("alice".to_owned()));
    assert_eq!(cache.lookup("token-b", 50), None);
    assert_eq!(cache.len(), 1);
    assert_eq!(cache.lookup("token-a", 100), None);
    assert_eq!(cache.len(), 0);
    assert_eq!(cache.lookup("token-a", 10), None);
}

#[test]
fn cache_drops_least_recently_used_beyond_capacity() {
    let mut cache: VerifiedTokenCache<u32> = VerifiedTokenCache::new(2);
    cache.store("a", 1000, 1);
    cache.store("b", 1000, 2);
    assert_eq!(cache.lookup("a", 0), Some(1));
    cache.store("c", 1000, 3);
    assert_eq!(cache.len(), 2);
    assert_eq!(cache.lookup("b", 0), None);
    assert_eq!(cache.lookup("a", 0), Some(1));
    assert_eq!(cache.lookup("c", 0), Some(3));
    cache.store("a", 1000, 10);
    assert_eq!(cache.len(), 2);
    assert_eq!(cache.lookup("a", 0), Some(10));
    cache.remove("a");
    assert_eq!(cache.lookup("a", 0), None);
    assert_eq!(cache.len(), 1);
}

#[test]
fn zero_capacity_cache_keeps_nothing() {
    let mut cache: VerifiedTokenCache<u32> = VerifiedTokenCache::new(0);
    cache.store("a", 1000, 1);
    assert_eq!(cache.len(), 0);
    assert_eq!(cache.lookup("a", 0), None);
}

#[test]
fn cache_key_is_the_token_sha256() {
    let key = token_cache_key("abc");
    assert_eq!(key.len(), 32);
    assert_eq!(&key[..4], &[0xba, 0x78, 0x16, 0xbf]);
}

// ---- key settings ---------------------------------------------------------------------

#[test]
fn outbox_key_source_rules() {
    assert_eq!(outbox_key_source(&s("abc"), true), Ok(KeySource::Configured("abc".into())));
    assert_eq!(outbox_key_source(&s("  "), false), Ok(KeySource::Derived));
    assert_eq!(outbox_key_source(&None, false), Ok(KeySource::Derived));
    assert_eq!(
        outbox_key_source(&None, true),
        Err(configuration("AUTH_OUTBOX_KEY_BASE64 is required in production"))
    );
}

#[test]
fn outbox_key_version_rules() {
    assert_eq!(outbox_key_version(&None, false), Ok("development-v1".to_owned()));
    assert_eq!(
        outbox_key_version(&None, true),
        Err(configuration("AUTH_OUTBOX_KEY_VERSION is required in production"))
    );
    assert_eq!(
        outbox_key_version(&s("development-v1"), true),
        Err(configuration("production forbids the development outbox key version"))
    );
    assert_eq!(outbox_key_version(&s("development-v1"), false), Ok("development-v1".to_owned()));
    assert_eq!(outbox_key_version(&s("v2"), true), Ok("v2".to_owned()));
}

#[test]
fn recovery_pepper_is_padded_base64() {
    assert_eq!(recovery_code_pepper(&s(" AAEC "), true), Ok(KeyMaterial::Decoded(vec![0, 1, 2])));
    assert_eq!(recovery_code_pepper(&s("AAE"), false), Err(configuration("recovery-code pepper is invalid")));
    assert_eq!(
        recovery_code_pepper(&None, true),
        Err(configuration("AUTH_RECOVERY_CODE_PEPPER_BASE64 is required in production"))
    );
    assert_eq!(recovery_code_pepper(&s(""), false), Ok(KeyMaterial::Derived));
}

#[test]
fn trusted_ingress_key_must_be_32_bytes() {
    assert_eq!(trusted_ingress_key(&None), Ok(None));
    assert_eq!(trusted_ingress_key(&s("   ")), Ok(None));
    assert_eq!(
        trusted_ingress_key(&s("AAAAAAAAAAAAAAAAAAAAAAAAAAAAAAAAAAAAAAAAAAA=")),
        Ok(Some(vec![0u8; 32]))
    );
    let short = Err(configuration("AUTH_TRUSTED_INGRESS_KEY_BASE64 must decode to 32 bytes"));
    assert_eq!(trusted_ingress_key(&s("AAEC")), short);
    assert_eq!(trusted_ingress_key(&s("not base64!")), short);
    assert_eq!(trusted_ingress_audience(&None), "buwiz-server");
    assert_eq!(trusted_ingress_audience(&s("edge")), "edge");
}

#[test]
fn jwt_key_ring_rules() {
    assert_eq!(jwt_key_source(&s("{}"), true, &None, &None), Ok(JwtKeySource::Json("{}".into())));
    assert_eq!(
        jwt_key_source(&None, true, &None, &None),
        Err(configuration("AUTH_JWT_KEY_RING_JSON with an active ES256 key is required in production"))
    );
    assert_eq!(
        jwt_key_source(&s(" "), false, &None, &s("  ")),
        Ok(JwtKeySource::DevelopmentHs256 { kid: "buwiz-server-dev-hs256".into(), secret: None })
    );
    assert_eq!(
        jwt_key_source(&None, false, &s("k1"), &s("shh")),
        Ok(JwtKeySource::DevelopmentHs256 { kid: "k1".into(), secret: Some("shh".into()) })
    );
}

#[test]
fn signing_key_sync_needed_for_unknown_kids() {
    assert!(signing_keys_need_sync(&strings(&["k1", "k2"]), &strings(&["k1"])));
    assert!(!signing_keys_need_sync(&strings(&["k1"]), &strings(&["k0", "k1"])));
    assert!(!signing_keys_need_sync(&[], &[]));
    assert_eq!(signing_key_version(&None), "runtime-v1");
    assert_eq!(signing_key_version(&s("v9")), "v9");
}

#[test]
fn passkey_settings() {
    assert_eq!(passkey_attachment(&None), Ok(PasskeyAttachment::Platform));
    assert_eq!(passkey_attachment(&s(" Roaming ")), Ok(PasskeyAttachment::CrossPlatform));
    assert_eq!(passkey_attachment(&s("cross_platform")), Ok(PasskeyAttachment::CrossPlatform));
    assert_eq!(passkey_attachment(&s("NONE")), Ok(PasskeyAttachment::Any));
    assert_eq!(
        passkey_attachment(&s("usb")),
        Err(configuration("AUTH_PASSKEY_AUTHENTICATOR_ATTACHMENT must be platform, cross-platform, or any"))
    );
    assert_eq!(
        passkey_relying_party(s("127.0.0.1"), None, s("http://127.0.0.1:3008/")),
        ("localhost".to_owned(), "buwiz-server".to_owned(), "http://localhost:3008".to_owned())
    );
    assert_eq!(
        passkey_relying_party(None, s("Acme"), None),
        ("localhost".to_owned(), "Acme".to_owned(), "http://localhost:3008".to_owned())
    );
}

#[test]
fn required_service_settings() {
    assert_eq!(database_url(&None), Err(configuration("DATABASE_URL is required")));
    assert_eq!(database_url(&s("postgres://db")), Ok("postgres://db".to_owned()));
    assert_eq!(
        check_vault_key_configured(true, &s(" ")),
        Err(configuration("AUTH_VAULT_KEY_BASE64 is required in production"))
    );
    assert_eq!(check_vault_key_configured(false, &None), Ok(()));
    assert_eq!(check_vault_key_configured(true, &s("k")), Ok(()));
    assert_eq!(
        transactional_mail_settings(&None, &s("https://x.example")),
        Ok(("Goldcoders".to_owned(), "https://x.example".to_owned()))
    );
    assert_eq!(
        transactional_mail_settings(&s("Acme"), &None),
        Err(configuration("AUTH_PUBLIC_BASE_URL is required"))
    );
}

// ---- dashboard edits ------------------------------------------------------------------

fn notes(id: &str) -> BoardNode {
    BoardNode::Widget {
        id: id.to_owned(),
        kind: DashboardWidgetKind::Notes,
        col_span: 4,
        note_text: None,
        source_id: None,
        bind: WidgetBind::default(),
        http_mode: HttpDisplayMode::List,
    }
}

fn board() -> DashboardLayout {
    let activity = BoardNode::Widget {
        id: "act".to_owned(),
        kind: DashboardWidgetKind::Activity,
        col_span: 4,
        note_text: None,
        source_id: None,
        bind: WidgetBind::default(),
        http_mode: HttpDisplayMode::List,
    };
    DashboardLayout {
        version: 2,
        revision: 3,
        nodes: vec![
            BoardNode::Container {
                id: "row".to_owned(),
                kind: BoardContainerKind::Row,
                col_span: 12,
                children: vec![activity, notes("n1")],
            },
        ],
        widgets: Vec::new(),
    }
}

#[test]
fn note_updates_are_validated() {
    let ok = DashboardNoteUpdate { widget_id: "n1".into(), text: "hello".into() };
    assert_eq!(validate_note_update(&ok), Ok(()));
    let blank = DashboardNoteUpdate { widget_id: "  ".into(), text: "x".into() };
    assert_eq!(validate_note_update(&blank), Err(validation("widget_id is required")));
    let long = DashboardNoteUpdate { widget_id: "n1".into(), text: "é".repeat(2001) };
    assert_eq!(validate_note_update(&long), Err(validation("note is too long")));
    let max = DashboardNoteUpdate { widget_id: "n1".into(), text: "é".repeat(2000) };
    assert_eq!(validate_note_update(&max), Ok(()));
}

#[test]
fn notes_are_written_only_to_notes_tiles() {
    let mut layout = board();
    assert_eq!(set_widget_note(&mut layout, "n1", "remember".into()), Ok(()));
    match &layout.nodes[0] {
        BoardNode::Container { children, .. } => match &children[1] {
            BoardNode::Widget { note_text, .. } => assert_eq!(note_text.as_deref(), Some("remember")),
            _ => panic!("widget expected"),
        },
        _ => panic!("container expected"),
    }
    assert_eq!(layout.revision, 3);
    assert_eq!(
        set_widget_note(&mut layout, "act", "x".into()),
        Err(validation("widget is not a notes tile"))
    );
    assert_eq!(
        set_widget_note(&mut layout, "row", "x".into()),
        Err(validation("widget is not a notes tile"))
    );
    assert_eq!(
        set_widget_note(&mut layout, "missing", "x".into()),
        Err(AuthStackError::NotFound { message: "widget not found".into() })
    );
}

#[test]
fn layout_save_revisions() {
    assert_eq!(revision_precondition(0), None);
    assert_eq!(revision_precondition(-2), None);
    assert_eq!(revision_precondition(9), Some(9));

    let mut fresh = DashboardLayout { version: 1, revision: 0, nodes: Vec::new(), widgets: Vec::new() };
    assert_eq!(prepare_layout_save(&mut fresh, 0), Ok(None));
    assert_eq!(fresh.version, 2);

    let mut stale = DashboardLayout { version: 2, revision: 0, nodes: Vec::new(), widgets: Vec::new() };
    assert_eq!(
        prepare_layout_save(&mut stale, 5),
        Err(AuthStackError::Conflict {
            message: "the board revision is missing; reload the board and reapply your edit".into()
        })
    );

    let mut legacy = DashboardLayout {
        version: 1,
        revision: 7,
        nodes: Vec::new(),
        widgets: vec![LegacyDashboardWidget {
            id: "w".into(),
            kind: DashboardWidgetKind::Notes,
            col_span: 4,
            note_text: None,
        }],
    };
    assert_eq!(prepare_layout_save(&mut legacy, 7), Ok(Some(7)));
    assert_eq!(legacy.version, 2);
    assert!(legacy.widgets.is_empty());
    assert_eq!(legacy.nodes.len(), 1);
}

#[test]
fn private_http_sources_only_outside_production() {
    assert!(dashboard_http_allow_private(false, &s(" YES ")));
    assert!(!dashboard_http_allow_private(true, &s("1")));
    assert!(!dashboard_http_allow_private(false, &None));
    assert!(!dashboard_http_allow_private(false, &s("maybe")));
}

// ---- sessions and tokens --------------------------------------------------------------

#[test]
fn csrf_checks() {
    assert_eq!(csrf_session_id(&None), Err(AuthStackError::AuthRequired));
    assert_eq!(csrf_session_id(&s("   ")), Err(AuthStackError::AuthRequired));
    assert_eq!(csrf_session_id(&s(" s1 ")), Ok("s1".to_owned()));
    let required = Err(validation("x-csrf-token is required"));
    assert_eq!(check_csrf_candidate("tok", &None), required);
    assert_eq!(check_csrf_candidate("tok", &s("  ")), required);
    assert_eq!(check_csrf_candidate("tok", &s(" tok ")), Ok(()));
    assert_eq!(check_csrf_candidate("tok", &s("tox")), Err(AuthStackError::Forbidden));
    assert_eq!(check_csrf_candidate("tok", &s("toke")), Err(AuthStackError::Forbidden));
}

fn verified(scopes: &[&str], system_administrator: bool) -> TokenVerifyResponse {
    TokenVerifyResponse {
        active: true,
        subject: "user-1".into(),
        tenant_id: s("org-1"),
        session_id: s("sess-1"),
        expires_at: 2000,
        scopes: strings(scopes),
        role_ids: Vec::new(),
        policy_revision: None,
        assurance: "aal2".into(),
        system_administrator,
        issued_at_unix_seconds: 1000,
    }
}

#[test]
fn token_permissions() {
    assert!(token_grants_permission(&verified(&["dashboard.view"], false), "dashboard.view", false, false));
    assert!(!token_grants_permission(&verified(&["dashboard.view"], false), "vault.view", true, true));
    assert!(token_grants_permission(&verified(&[], true), "system.user.manage", true, true));
    assert!(!token_grants_permission(&verified(&[], true), "system.user.manage", false, true));
    assert!(!token_grants_permission(&verified(&[], true), "vault.view", true, false));
}

#[test]
fn token_session_view_carries_the_token() {
    let view = token_session_view(verified(&["a"], false));
    assert!(view.authenticated);
    assert_eq!(view.user_id.as_deref(), Some("user-1"));
    assert_eq!(view.public_session_id, Some(public_session_id("sess-1")));
    assert_eq!(view.expires_at_unix_seconds, Some(2000));
    assert_eq!(view.issued_at_unix_seconds, Some(1000));
    assert_eq!(view.primary_email, None);
    assert_eq!(view.permissions, strings(&["a"]));
}

// ---- administration -------------------------------------------------------------------

#[test]
fn audit_scope_rules() {
    let perms = strings(&["audit.view"]);
    assert_eq!(audit_scope(None, s("org-1"), false, &perms), Ok(s("org-1")));
    assert_eq!(audit_scope(s("  "), s("org-1"), false, &perms), Ok(s("org-1")));
    assert_eq!(audit_scope(s("org-2"), s("org-1"), false, &perms), Err(AuthStackError::Forbidden));
    assert_eq!(audit_scope(None, s("org-1"), false, &[]), Err(AuthStackError::Forbidden));
    assert_eq!(audit_scope(None, s("tenant:default"), false, &perms), Err(AuthStackError::Forbidden));
    assert_eq!(audit_scope(None, s("tenant:default"), true, &[]), Ok(None));
    assert_eq!(audit_scope(s("org-9"), None, true, &[]), Ok(s("org-9")));
    assert_eq!(audit_page_limit(0), 1);
    assert_eq!(audit_page_limit(20), 20);
    assert_eq!(audit_page_limit(500), 100);
}

#[test]
fn redirect_allowlist_entries_are_local_paths() {
    assert_eq!(validate_redirect_allowlist(&strings(&["/dashboard", "/a?b=c"])), Ok(()));
    let bad = Err(validation("redirect allowlist entries must be local paths"));
    assert_eq!(validate_redirect_allowlist(&strings(&["/ok", "//evil.example"])), bad);
    assert_eq!(validate_redirect_allowlist(&strings(&["https://x"])), bad);
    assert_eq!(validate_redirect_allowlist(&strings(&[""])), bad);
    assert_eq!(validate_redirect_allowlist(&[]), Ok(()));
}

// ---- vault ----------------------------------------------------------------------------

#[test]
fn vault_targets() {
    assert_eq!(vault_org_target(&s("id-1"), &s(" acme ")), VaultOrgTarget::Slug("acme".into()));
    assert_eq!(vault_org_target(&s(" id-1 "), &s("  ")), VaultOrgTarget::Id("id-1".into()));
    assert_eq!(vault_org_target(&None, &None), VaultOrgTarget::SessionDefault);
    assert_eq!(session_vault_org(&s("org-1")), Ok("org-1".to_owned()));
    assert_eq!(
        session_vault_org(&s(" ")),
        Err(validation("create a workspace before using the secret vault"))
    );
}

#[test]
fn vault_reveal_step_up_setting() {
    assert!(!vault_reveal_step_up(&s(" OFF "), true));
    assert!(vault_reveal_step_up(&s("yes"), false));
    assert!(vault_reveal_step_up(&s("maybe"), true));
    assert!(!vault_reveal_step_up(&None, false));
}

#[test]
fn vault_workspace_pick() {
    let orgs = vec![org("a", "owner", &[]), org("b", "member", &[])];
    assert_eq!(pick_vault_workspace(orgs.clone(), &s(" b ")).unwrap().organization_id, "b");
    assert_eq!(pick_vault_workspace(orgs.clone(), &s("zzz")).unwrap().organization_id, "a");
    assert_eq!(pick_vault_workspace(orgs, &None).unwrap().organization_id, "a");
    assert_eq!(
        pick_vault_workspace(Vec::new(), &None),
        Err(AuthStackError::NotFound { message: "no workspace yet".into() })
    );
}

#[test]
fn legacy_migration_reports() {
    let request = WorkspaceLegacyMigrateRequest { organization_id: " org-1 ".into(), dry_run: true };
    assert_eq!(legacy_migrate_organization(&request), Ok("org-1".to_owned()));
    let blank = WorkspaceLegacyMigrateRequest { organization_id: "  ".into(), dry_run: false };
    assert_eq!(legacy_migrate_organization(&blank), Err(validation("organization_id is required")));

    let dry = legacy_migrate_report("org-1".into(), true, false, false, 3, 1, strings(&["k1", "k2"]));
    assert_eq!(dry.message, "Dry run: would copy secrets rows=3, reenter_required=2");
    assert_eq!(dry.secret_rows_copied, 3);
    let done = legacy_migrate_report("org-1".into(), false, true, false, 0, 0, Vec::new());
    assert_eq!(done.message, "Legacy workspace data migrated into this organization.");
    let reenter = legacy_migrate_report("org-1".into(), false, false, false, 0, 2, strings(&["k"]));
    assert_eq!(
        reenter.message,
        "Nothing copied automatically; re-enter secrets listed in reenter_required_keys."
    );
    let none = legacy_migrate_report("org-1".into(), false, false, false, 0, 0, Vec::new());
    assert_eq!(none.message, "No legacy user data found (or destination already populated).");
}

// ---- development tools ----------------------------------------------------------------

#[test]
fn development_tool_gates() {
    assert!(development_auth_tools_enabled(false, true, true));
    assert!(!development_auth_tools_enabled(true, true, true));
    assert!(!development_auth_tools_enabled(false, true, false));
    assert!(development_mail_capture_enabled(true, false, true, &s("capture"), true));
    assert!(!development_mail_capture_enabled(true, false, true, &s("smtp"), true));
    assert!(!development_mail_capture_enabled(false, false, true, &s("capture"), true));
}

#[test]
fn captured_mail_surface_checks_in_order() {
    let local = "http://localhost:3008";
    let capture = s("capture");
    assert_eq!(require_development_mail_capture(true, true, local, true, &capture), Err(AuthStackError::Forbidden));
    assert_eq!(require_development_mail_capture(false, false, local, true, &capture), Err(AuthStackError::Forbidden));
    assert_eq!(
        require_development_mail_capture(false, true, "https://app.example.com", false, &None),
        Err(configuration("development auth requires a loopback AUTH_PUBLIC_BASE_URL"))
    );
    assert_eq!(
        require_development_mail_capture(false, true, local, false, &capture),
        Err(configuration("captured mail requires the mail-capture feature"))
    );
    assert_eq!(
        require_development_mail_capture(false, true, local, true, &s("smtp")),
        Err(configuration("captured mail requires AUTH_MAIL_TRANSPORT=capture"))
    );
    assert_eq!(require_development_mail_capture(false, true, local, true, &capture), Ok(()));
}

#[test]
fn captured_mail_requests() {
    assert_eq!(captured_mail_kind("invitation"), Ok(CapturedMailKind::Invitation));
    assert_eq!(captured_mail_kind("password-reset"), Ok(CapturedMailKind::PasswordReset));
    assert_eq!(captured_mail_kind("email-verification"), Ok(CapturedMailKind::EmailVerification));
    assert_eq!(captured_mail_kind("spam"), Err(validation("message_kind is invalid")));
    assert_eq!(
        captured_action_url(s("http://localhost:3008/verify?token=x")),
        s("/verify?token=x")
    );
    assert_eq!(captured_action_url(s("mailto:someone")), s("mailto:someone"));
    assert_eq!(captured_action_url(None), None);
}

// ---- OAuth providers ------------------------------------------------------------------

#[test]
fn provider_summaries_and_names() {
    let summary = provider_summary("google".into(), "Google".into(), true);
    assert_eq!(summary.login_url, "/api/auth/oauth/google/start");
    assert_eq!(provider_display_name("azure-ad_v2"), "Azure Ad V2");
    assert_eq!(provider_display_name("--github"), "Github");
    assert_eq!(provider_display_name("éclair"), "Éclair");
    assert_eq!(provider_display_name("ß-x"), "SS X");
    assert_eq!(provider_display_name(""), "");
}

#[test]
fn provider_credentials() {
    assert_eq!(
        provider_credential_requirements("google"),
        vec![strings(&["AUTH_GOOGLE_CLIENT_ID", "AUTH_GOOGLE_CLIENT_SECRET"])]
    );
    assert_eq!(
        provider_credential_requirements("my-sso.v2"),
        vec![strings(&["AUTH_MY_SSO_V2_CLIENT_ID", "AUTH_MY_SSO_V2_CLIENT_SECRET"])]
    );
    let apple = provider_credential_requirements("apple");
    assert_eq!(apple.len(), 2);
    assert!(credentials_configured(&apple, &strings(&["AUTH_APPLE_CLIENT_ID", "AUTH_APPLE_GENERATED_CLIENT_SECRET"])));
    assert!(credentials_configured(
        &apple,
        &strings(&["AUTH_APPLE_CLIENT_ID", "AUTH_APPLE_TEAM_ID", "AUTH_APPLE_KEY_ID", "AUTH_APPLE_PRIVATE_KEY"])
    ));
    assert!(!credentials_configured(&apple, &strings(&["AUTH_APPLE_CLIENT_ID", "AUTH_APPLE_TEAM_ID"])));
    assert!(!credentials_configured(&provider_credential_requirements("google"), &strings(&["AUTH_GOOGLE_CLIENT_ID"])));
}

#[test]
fn provider_readiness() {
    let found = Some(AuthProviderSummary {
        provider_id: "google".into(),
        display_name: "Google".into(),
        login_url: "/api/auth/oauth/google/start".into(),
        enabled: false,
    });
    assert!(provider_enabled(false, true));
    assert!(!provider_enabled(false, false));
    assert_eq!(
        oauth_provider_ready("gh", None, true, true),
        Err(AuthStackError::NotFound { message: "OAuth provider 'gh' is not configured".into() })
    );
    assert_eq!(
        oauth_provider_ready("google", found.clone(), false, true),
        Err(configuration("OAuth provider 'google' is disabled"))
    );
    assert_eq!(
        oauth_provider_ready("google", found.clone(), true, false),
        Err(configuration("OAuth provider 'google' is missing credentials"))
    );
    assert!(oauth_provider_ready("google", found, true, true).unwrap().enabled);
}

#[test]
fn development_oauth_callback() {
    assert!(development_oauth_callback_bypass_enabled(true, false, true));
    assert!(!development_oauth_callback_bypass_enabled(true, true, true));
    assert_eq!(
        development_oauth_email("google", "development-oauth-code", "abc"),
        Ok("google-abc@oauth.local".to_owned())
    );
    assert_eq!(
        development_oauth_email("google", "real-code", "abc"),
        Err(validation("OAuth development callback code is invalid"))
    );
}

// ---- workspace settings ---------------------------------------------------------------

fn role(id: &str, name: &str) -> RoleSummary {
    RoleSummary {
        organization_id: "o".into(),
        role_id: id.into(),
        name: name.into(),
        built_in: id == "owner",
        permissions: Vec::new(),
    }
}

fn invitation(status: &str) -> InvitationSummary {
    InvitationSummary {
        invitation_id: "i".into(),
        organization_id: "o".into(),
        email: "e@x".into(),
        role_id: "member".into(),
        status: status.into(),
        expires_at_ms: 0,
    }
}

fn membership() -> MembershipSummary {
    MembershipSummary {
        organization_id: "o".into(),
        user_id: "u".into(),
        primary_email: "e@x".into(),
        role_id: "member".into(),
        status: "active".into(),
        joined_at_ms: 0,
    }
}

#[test]
fn workspace_settings_context_assembly() {
    let roles = vec![role("owner", "Owner"), role("billing", "Billing Team"), role("member", "Member")];
    let context = workspace_settings_context(
        org("o", "billing", &["role.view", "member.view"]),
        true,
        Some(roles),
        &Some(vec![membership(), membership()]),
        &Some(vec![invitation("pending"), invitation("accepted"), invitation("pending")]),
    );
    assert_eq!(context.membership.role_name, "Billing Team");
    assert_eq!(context.membership.status, "active");
    let ids: Vec<&str> = context.role_options.iter().map(|r| r.role_id.as_str()).collect();
    assert_eq!(ids, vec!["billing", "member"]);
    assert_eq!(context.member_count, 2);
    assert_eq!(context.pending_invitation_count, 2);
    assert!(context.requires_step_up);
    assert_eq!(context.organization.slug, "slug-o");

    let bare = workspace_settings_context(org("o", "admin", &[]), false, None, &None, &None);
    assert_eq!(bare.membership.role_name, "Admin");
    assert!(bare.role_options.is_empty());
    assert_eq!(bare.member_count, 0);
    assert_eq!(bare.pending_invitation_count, 0);
}

// ---- tax profiles ---------------------------------------------------------------------

#[test]
fn tax_profile_holders() {
    assert_eq!(
        resolve_holder("u1", Some("s1"), Some(" org-1 ")),
        Ok((
            AccountHolder::Organization { organization_id: "org-1".into() },
            HolderAccess::MembershipOf { session_id: "s1".into(), organization_id: "org-1".into() }
        ))
    );
    assert_eq!(resolve_holder("u1", None, Some("org-1")), Err(AuthStackError::AuthRequired));
    assert_eq!(
        resolve_holder("u1", None, Some("  ")),
        Ok((AccountHolder::Personal { user_id: "u1".into() }, HolderAccess::Granted))
    );
    let personal = Some(AccountHolder::Personal { user_id: "u1".into() });
    assert_eq!(ensure_holder_or_org(&personal, "u1", None), Ok(HolderAccess::Granted));
    assert_eq!(ensure_holder_or_org(&personal, "u2", Some("s")), Err(AuthStackError::Forbidden));
    let company = Some(AccountHolder::Organization { organization_id: "org-1".into() });
    assert_eq!(ensure_holder_or_org(&company, "u2", None), Err(AuthStackError::AuthRequired));
    assert_eq!(
        ensure_holder_or_org(&company, "u2", Some("s")),
        Ok(HolderAccess::MembershipOf { session_id: "s".into(), organization_id: "org-1".into() })
    );
    assert_eq!(ensure_holder_or_org(&None, "u1", Some("s")), Err(AuthStackError::Forbidden));
}

#[test]
fn tax_profile_read_rules() {
    let missing = TaxProfile::new();
    assert_eq!(
        tax_profile_read_access(&missing, "u1", None),
        Err(AuthStackError::NotFound { message: "tax profile not found".into() })
    );
    let mut held = TaxProfile::new();
    held.exists = true;
    held.holder = Some(AccountHolder::Organization { organization_id: "org-1".into() });
    held.verified_owner_user_id = Some("owner-1".into());
    assert_eq!(tax_profile_read_access(&held, "owner-1", None), Ok(HolderAccess::Granted));
    assert_eq!(
        tax_profile_read_access(&held, "u2", Some("s")),
        Ok(HolderAccess::MembershipOf { session_id: "s".into(), organization_id: "org-1".into() })
    );
}

#[test]
fn tax_profile_request_checks() {
    assert_eq!(
        check_actor_status("pending_verification"),
        Err(validation("verify your email before creating or claiming tax profiles"))
    );
    assert_eq!(check_actor_status("disabled"), Err(AuthStackError::Forbidden));
    assert_eq!(check_actor_status("active"), Ok(()));

    assert_eq!(patch_identity_fields(&None, &None), Ok(None));
    assert_eq!(patch_identity_fields(&s(" "), &s("")), Ok(None));
    assert_eq!(
        patch_identity_fields(&s("123456789"), &s("000")),
        Ok(Some(("123456789".to_owned(), "000".to_owned())))
    );
    assert_eq!(
        patch_identity_fields(&s("123456789"), &None),
        Err(validation("tin_root and branch_code must be attested together and cannot change identity"))
    );

    let stored = Some(TinIdentityHash("abc".into()));
    assert_eq!(check_identity_unchanged(&stored, &TinIdentityHash("abc".into())), Ok(()));
    assert_eq!(
        check_identity_unchanged(&stored, &TinIdentityHash("abd".into())),
        Err(TaxProfileError::IdentityImmutable)
    );
    assert_eq!(check_identity_unchanged(&None, &TinIdentityHash("abc".into())), Err(TaxProfileError::IdentityImmutable));

    assert_eq!(check_not_stale(&None, &s("t1")), Ok(()));
    assert_eq!(check_not_stale(&s(""), &None), Ok(()));
    assert_eq!(check_not_stale(&s("t1"), &s("t1")), Ok(()));
    assert_eq!(check_not_stale(&s("t0"), &s("t1")), Err(TaxProfileError::StaleWrite));
    assert_eq!(check_not_stale(&s("t0"), &None), Err(TaxProfileError::StaleWrite));

    assert_eq!(profile_display_name(&s("  Main shop "), "ACME"), "Main shop");
    assert_eq!(profile_display_name(&s("  "), "ACME"), "ACME");
    assert_eq!(profile_display_name(&None, "ACME"), "ACME");

    assert_eq!(tax_profile_list_org(s("o1"), s("o2")), s("o1"));
    assert_eq!(tax_profile_list_org(None, s("o2")), s("o2"));
    assert_eq!(tax_profile_list_org(s(" "), s("o2")), None);
}

#[test]
fn me_lists_workspaces_with_roles() {
    let me = me_response("u1".into(), s("u1@x"), vec![org("a", "owner", &[]), org("b", "viewer", &[])]);
    assert_eq!(me.user_id, "u1");
    assert_eq!(me.orgs.len(), 2);
    assert_eq!(me.orgs[1].org_id, "b");
    assert_eq!(me.orgs[1].role, "viewer");
    assert_eq!(me.orgs[0].slug, "slug-a");
}

#[test]
fn dashboard_snapshot_assembly() {
    let result = QueryResult {
        query_id: "q1".into(),
        ok: true,
        error: None,
        raw_json: "[1]".into(),
        data_json: "[1]".into(),
        meta: QueryMeta {
            resource_kind: ResourceKind::Rest,
            status: Some(200),
            grpc_status: None,
            duration_ms: 3,
            row_count: Some(1),
            truncated: false,
        },
    };
    let parts = DashboardSnapshotParts {
        email: s("ana@example.com"),
        assurance: "aal2".into(),
        tenant_id: s("o"),
        system_administrator: false,
        sessions: Vec::new(),
        organizations: vec![org("o", "owner", &[])],
        totp_enrolled: true,
        recovery_codes_remaining: 4,
        activity: Vec::new(),
        notifications: Vec::new(),
        layout: board(),
        secrets: Vec::new(),
        http_enabled: true,
        resources: Vec::new(),
        queries: Vec::new(),
        query_results: vec![result],
        grpc_resources_enabled: false,
        load_warnings: vec![activity_warning(&AuthStackError::Forbidden)],
    };
    let snap = dashboard_snapshot(parts);
    assert_eq!(snap.greeting_name, "ana");
    assert!(snap.has_tenant);
    assert_eq!(snap.tenant_label.as_deref(), Some("Org o · /org/slug-o"));
    assert_eq!(snap.organization_count, 1);
    assert_eq!(snap.active_session_count, 0);
    assert_eq!(snap.security_score, 100);
    assert_eq!(snap.http_results.len(), 1);
    assert_eq!(snap.http_results[0].source_id, "q1");
    assert!(snap.postgres_resources_enabled);
    assert!(snap.data_sources.is_empty());
    let activity_entry = snap.catalog.iter().find(|c| c.kind == DashboardWidgetKind::Activity).unwrap();
    assert_eq!(activity_entry.already_added, !activity_entry.allows_multiple);
    assert_eq!(snap.load_warnings, vec!["activity: permission denied".to_owned()]);
}

#[test]
fn tin_ownership_verifier_choice() {
    let key = parse_registration("123456789", "00000").unwrap();
    let proof = verify_tin_ownership(&key, "u1", true).unwrap();
    assert_eq!(proof.method, ProofMethod::FakeOrus);
    assert_eq!(proof.claimant_user_id, "u1");
    assert_eq!(verify_tin_ownership(&key, " ", true).unwrap_err(), validation("claimant is required"));
    assert_eq!(
        verify_tin_ownership(&key, "u1", false).unwrap_err(),
        configuration("ORUS TIN verification is not configured (enable ORUS_FAKE_VERIFIER for local)")
    );
}

#[test]
fn custom_role_form_checks() {
    let perms = vec!["dashboard.view".to_owned()];
    assert_eq!(role_form_submission("acme", "", " Billing Team ", &perms), Ok(("billing-team".into(), "Billing Team".into())));
    assert_eq!(role_form_submission("acme", " ops ", "Ops", &perms), Ok(("ops".into(), "Ops".into())));
    assert_eq!(role_form_submission("", "ops", "Ops", &perms), Err("role name is required".into()));
    assert_eq!(role_form_submission("acme", "ops", "  ", &perms), Err("role name is required".into()));
    assert_eq!(
        role_form_submission("acme", "", "!!!", &perms),
        Err("role id must be 1–128 characters: letters, numbers, ., _, -".into())
    );
    assert_eq!(
        role_form_submission("acme", "a b", "Ops", &perms),
        Err("role id must be 1–128 characters: letters, numbers, ., _, -".into())
    );
    assert_eq!(
        role_form_submission("acme", "", "Admin", &perms),
        Err("built-in role ids cannot be used for custom roles".into())
    );
    assert_eq!(role_form_submission("acme", "ops", "Ops", &Vec::new()), Err("select at least one permission".into()));
    assert_eq!(role_row_name(&role("ops", " ")), "ops");
    assert_eq!(role_row_name(&role("ops", "Operations")), "Operations");
}

#[test]
fn danger_zone_rules() {
    assert!(can_deactivate_workspace(&strings(&["ownership.transfer"]), "admin"));
    assert!(can_deactivate_workspace(&Vec::new(), "owner"));
    assert!(!can_deactivate_workspace(&strings(&["member.view"]), "admin"));
    assert!(deactivation_confirmed("  ACME Corp ", "Acme Corp", "acme"));
    assert!(deactivation_confirmed("Acme", "Acme Corp", "acme"));
    assert!(!deactivation_confirmed("  ", "Acme Corp", "acme"));
    assert!(!deactivation_confirmed("acm", "Acme Corp", "acme"));
    assert!(!deactivation_confirmed("x", "Acme Corp", ""));
}

#[test]
fn invite_and_rename_forms() {
    let options = vec![WorkspaceRoleOption { role_id: "member".into(), name: "Member".into(), built_in: true }];
    assert_eq!(invite_form_submission("acme", " a@x.com ", "member", &options), Ok("a@x.com".to_owned()));
    assert_eq!(invite_form_submission("acme", "  ", "member", &options), Err("email and role are required".to_owned()));
    assert_eq!(invite_form_submission("", "a@x.com", "member", &options), Err("email and role are required".to_owned()));
    assert_eq!(invite_form_submission("acme", "a@x.com", "owner", &options), Err("role is not available for invite".to_owned()));
    assert_eq!(workspace_name_submission("acme", "  New ", "Old"), Ok(Some("New".to_owned())));
    assert_eq!(workspace_name_submission("acme", " Old ", "Old "), Ok(None));
    assert_eq!(workspace_name_submission("acme", "  ", "Old"), Err("workspace name is required".to_owned()));
}

#[test]
fn onboarding_gate() {
    assert!(onboarding_redirect_needed("/dashboard", Some(0)));
    assert!(!onboarding_redirect_needed("/dashboard", Some(2)));
    assert!(!onboarding_redirect_needed("/dashboard", None));
    assert!(!onboarding_redirect_needed("/onboarding/workspace/", Some(0)));
    assert!(!onboarding_redirect_needed("/login?next=/x", Some(0)));
    assert!(!onboarding_redirect_needed("/invitations/abc", Some(0)));
}

#[test]
fn workspace_slug_suggestions() {
    assert_eq!(workspace_slug_suggestion("  Acme Corp, Inc. "), "acme-corp-inc");
    assert_eq!(workspace_slug_suggestion("--Hello__World--"), "hello-world");
    assert_eq!(workspace_slug_suggestion("Über"), "ber");
    assert_eq!(workspace_slug_suggestion("!!!"), "");
    assert_eq!(workspace_slug_suggestion(&"ab".repeat(40)), "ab".repeat(24));
    let long = format!("{}-{}", "a".repeat(47), "b".repeat(5));
    assert_eq!(workspace_slug_suggestion(&long), format!("{}-", "a".repeat(47)));
}

#[test]
fn workspace_switcher_view() {
    let orgs = vec![org("a", "owner", &[]), org("b", "member", &[])];
    let v = workspace_switcher(&s("b"), &orgs);
    assert_eq!(v.label, "Org b");
    assert_eq!(v.vault_href, "/org/slug-b/vault");
    assert_eq!(v.settings_href, "/org/slug-b/settings/general");
    assert_eq!(v.active_index, Some(1));
    let none = workspace_switcher(&s(" "), &orgs);
    assert_eq!(none.label, "Select workspace");
    assert_eq!(none.vault_href, "/organizations");
    assert_eq!(none.active_index, None);
    assert_eq!(workspace_switcher(&None, &Vec::new()).label, "No workspace");
    let mut unslugged = org("c", "owner", &[]);
    unslugged.slug = String::new();
    let v = workspace_switcher(&s("c"), &vec![unslugged.clone()]);
    assert_eq!(v.vault_href, "/account/vault");
    assert_eq!(v.settings_href, "/organizations");
    assert_eq!(switcher_item_meta(&orgs[0], true), "Active");
    assert_eq!(switcher_item_meta(&orgs[0], false), "/org/slug-a");
    assert_eq!(switcher_item_meta(&unslugged, false), "");
}

#[test]
fn account_menu_identity() {
    let mut view = SessionView {
        authenticated: true,
        session_id: None,
        public_session_id: None,
        tenant_id: None,
        user_id: s("user-9"),
        primary_email: s("ana@x.com"),
        expires_at: None,
        permissions: Vec::new(),
        assurance: "aal1".into(),
        system_administrator: false,
        issued_at_unix_seconds: None,
        expires_at_unix_seconds: None,
    };
    assert_eq!(user_menu_identity(&view), ("ana@x.com".to_owned(), 'A'));
    view.primary_email = None;
    assert_eq!(user_menu_identity(&view), ("user-9".to_owned(), 'U'));
    view.user_id = None;
    assert_eq!(user_menu_identity(&view), ("Signed in".to_owned(), 'S'));
}

#[test]
fn settings_links() {
    assert_eq!(settings_section_href("acme", "roles"), ("/org/acme/settings/roles".to_owned(), false));
    assert_eq!(settings_section_href("", "roles"), ("/organizations".to_owned(), true));
}
