use buwiz::application::dashboard::{
    bound_query_ids, dashboard_catalog, greeting_name, has_tenant, http_result_of, kind_on_board,
    reveal_required_results, security_score, tenant_label,
};
use buwiz::application::ingress::{is_loopback_host, parse_browser_origin};
use buwiz::application::organization::{built_in_role_display_name, has_capability, validate_role_permissions};
use buwiz::application::session::session_id_from_cookie_header;
use buwiz::application::tax_profile::{map_orus_error, merge_facts, parse_registration};
use buwiz::auth_product::config::{
    bootstrap_admin_emails, config_bool_value, config_u32_value, config_u64_value,
    key_version_value, session_ttl_seconds_value,
};
use buwiz::contracts::auth::{EmailPasswordLoginRequest, TokenRefreshRequest};
use buwiz::contracts::dashboard::{
    BoardContainerKind, BoardNode, DashboardLayout, DashboardWidgetKind, HttpDisplayMode,
    LegacyDashboardWidget, WidgetBind,
};
use buwiz::contracts::organization::OrganizationSummary;
use buwiz::contracts::resources::{HttpMethod, QueryConfig, QueryExecutionClass, QueryResult, ResourceKind};
use buwiz::contracts::tax_profile::{bir_form_frequency, masked_tin_label, TaxProfilePatchRequest};
use buwiz::domain::orus::OrusError;
use buwiz::domain::tax_profile::{CloudTaxProfileFacts, TaxpayerType};
use buwiz::error::AuthStackError;

fn widget(id: &str, kind: DashboardWidgetKind, source: Option<&str>) -> BoardNode {
    BoardNode::Widget {
        id: id.to_owned(),
        kind,
        col_span: 6,
        note_text: None,
        source_id: source.map(str::to_owned),
        bind: WidgetBind::default(),
        http_mode: HttpDisplayMode::List,
    }
}

fn row(id: &str, children: Vec<BoardNode>) -> BoardNode {
    BoardNode::Container { id: id.to_owned(), kind: BoardContainerKind::Row, col_span: 12, children }
}

#[test]
fn v1_layouts_migrate_to_widget_nodes() {
    let mut layout = DashboardLayout {
        version: 1,
        revision: 7,
        nodes: Vec::new(),
        widgets: vec![
            LegacyDashboardWidget { id: "a".into(), kind: DashboardWidgetKind::Notes, col_span: 2, note_text: Some("hi".into()) },
            LegacyDashboardWidget { id: "b".into(), kind: DashboardWidgetKind::MetricOrgs, col_span: 40, note_text: None },
            LegacyDashboardWidget { id: "c".into(), kind: DashboardWidgetKind::Activity, col_span: 7, note_text: None },
        ],
    };
    layout.migrate_if_needed();
    assert_eq!(layout.version, 2);
    assert_eq!(layout.revision, 7);
    assert!(layout.widgets.is_empty());
    let spans: Vec<u8> = layout.nodes.iter().map(|n| n.col_span()).collect();
    assert_eq!(spans, vec![6, 3, 7]);
    assert_eq!(layout.nodes[0].id(), "a");
    match &layout.nodes[0] {
        BoardNode::Widget { note_text, source_id, http_mode, .. } => {
            assert_eq!(note_text.as_deref(), Some("hi"));
            assert!(source_id.is_none());
            assert_eq!(*http_mode, HttpDisplayMode::List);
        }
        BoardNode::Container { .. } => panic!("expected a widget"),
    }
    let before = layout.nodes.len();
    layout.migrate_if_needed();
    assert_eq!(layout.nodes.len(), before);
    assert_eq!(layout.version, 2);
}

#[test]
fn board_counts_and_spans() {
    let mut node = widget("w", DashboardWidgetKind::Notes, None);
    node.set_col_span(0);
    assert_eq!(node.col_span(), 1);
    node.set_col_span(40);
    assert_eq!(node.col_span(), 12);
    let layout = DashboardLayout {
        version: 2,
        revision: 0,
        nodes: vec![row("r", vec![widget("x", DashboardWidgetKind::Notes, None), widget("y", DashboardWidgetKind::Activity, None)]), node],
        widgets: Vec::new(),
    };
    assert_eq!(layout.total_nodes(), 4);
    assert_eq!(layout.nodes[0].count_nodes(), 3);
}

#[test]
fn find_widget_mut_edits_the_named_node_in_place() {
    let mut layout = DashboardLayout {
        version: 2,
        revision: 3,
        nodes: vec![
            widget("top", DashboardWidgetKind::Activity, None),
            row("r", vec![widget("note", DashboardWidgetKind::Notes, None)]),
        ],
        widgets: Vec::new(),
    };
    match layout.find_widget_mut("note") {
        Some(BoardNode::Widget { note_text, .. }) => *note_text = Some("remember".into()),
        _ => panic!("note widget not found"),
    }
    match &layout.nodes[1] {
        BoardNode::Container { children, .. } => match &children[0] {
            BoardNode::Widget { note_text, .. } => assert_eq!(note_text.as_deref(), Some("remember")),
            _ => panic!("expected a widget"),
        },
        _ => panic!("expected a container"),
    }
    assert!(layout.find_widget_mut("missing").is_none());
    assert!(layout.find_widget_mut("r").is_some());
}

#[test]
fn widget_catalog_texts_and_bindings() {
    let kinds = DashboardWidgetKind::catalog();
    assert_eq!(kinds.len(), 15);
    assert_eq!(kinds[0], DashboardWidgetKind::MetricSession);
    assert_eq!(kinds[14], DashboardWidgetKind::HttpPanel);
    assert_eq!(DashboardWidgetKind::BoundTable.as_str(), "bound_table");
    assert_eq!(DashboardWidgetKind::Organizations.label(), "Your workspaces");
    assert_eq!(DashboardWidgetKind::BoundMetric.default_span(), 3);
    assert_eq!(DashboardWidgetKind::BoundMetric.default_display_mode(), HttpDisplayMode::Metric);
    assert!(DashboardWidgetKind::Notes.allows_multiple());
    assert!(!DashboardWidgetKind::Notes.is_query_bound());
    assert_eq!(BoardContainerKind::Stack.label(), "Stack container");
    let list = WidgetBind::for_display_mode(&HttpDisplayMode::List);
    assert_eq!(list.title_path.as_deref(), Some("name"));
    assert_eq!(list.subtitle_path.as_deref(), Some("id"));
    let metric = WidgetBind::for_display_mode(&HttpDisplayMode::Metric);
    assert_eq!(metric.value_path.as_deref(), Some(""));
    assert_eq!(WidgetBind::for_display_mode(&HttpDisplayMode::Table), WidgetBind::default());
    assert_eq!(HttpDisplayMode::default(), HttpDisplayMode::List);
}

#[test]
fn dashboard_catalog_marks_single_instance_widgets_already_added() {
    let nodes = vec![row("r", vec![widget("a", DashboardWidgetKind::Activity, None), widget("n", DashboardWidgetKind::Notes, None)])];
    assert!(kind_on_board(&nodes, DashboardWidgetKind::Activity));
    assert!(!kind_on_board(&nodes, DashboardWidgetKind::Sessions));
    let items = dashboard_catalog(&nodes);
    assert_eq!(items.len(), 15);
    let activity = items.iter().find(|i| i.kind == DashboardWidgetKind::Activity).unwrap();
    assert!(activity.already_added);
    let notes = items.iter().find(|i| i.kind == DashboardWidgetKind::Notes).unwrap();
    assert!(!notes.already_added);
    assert!(notes.allows_multiple);
    assert_eq!(items[0].label, "Session status");
}

#[test]
fn bound_queries_are_unique_and_capped() {
    let mut nodes = vec![
        widget("a", DashboardWidgetKind::BoundList, Some("q1")),
        widget("b", DashboardWidgetKind::Notes, Some("ignored")),
        row("r", vec![widget("c", DashboardWidgetKind::BoundMetric, Some("q2")), widget("d", DashboardWidgetKind::BoundTable, Some("q1"))]),
    ];
    assert_eq!(bound_query_ids(&nodes), vec!["q1".to_owned(), "q2".to_owned()]);
    for i in 3..15 {
        nodes.push(widget("x", DashboardWidgetKind::HttpPanel, Some(&format!("q{i}"))));
    }
    let ids = bound_query_ids(&nodes);
    assert_eq!(ids.len(), 8);
    assert_eq!(ids[7], "q8");
}

#[test]
fn snapshot_greeting_tenant_and_score() {
    assert_eq!(greeting_name(&Some("ana@example.com".into())), "ana");
    assert_eq!(greeting_name(&Some("@example.com".into())), "there");
    assert_eq!(greeting_name(&None), "there");
    assert!(has_tenant(&Some("org-1".into())));
    assert!(!has_tenant(&Some("  ".into())));
    let orgs = vec![
        OrganizationSummary { organization_id: "org-1".into(), name: "Acme".into(), slug: "acme".into(), status: "active".into(), current_user_role: "owner".into(), permissions: vec!["dashboard.view".into()], created_at_ms: 0 },
        OrganizationSummary { organization_id: "org-2".into(), name: "Beta".into(), slug: String::new(), status: "active".into(), current_user_role: "member".into(), permissions: vec![], created_at_ms: 0 },
    ];
    assert_eq!(tenant_label(&Some("org-1".into()), &orgs).as_deref(), Some("Acme · /org/acme"));
    assert_eq!(tenant_label(&Some("org-2".into()), &orgs).as_deref(), Some("Beta"));
    assert_eq!(tenant_label(&Some("org-9".into()), &orgs).as_deref(), Some("org-9"));
    assert_eq!(tenant_label(&None, &orgs), None);
    assert!(has_capability(&orgs[0], "dashboard.view"));
    assert!(!has_capability(&orgs[1], "dashboard.view"));
    assert_eq!(security_score(false, 0, 5, "aal1"), 35);
    assert_eq!(security_score(true, 3, 1, "AAL2"), 100);
    assert_eq!(security_score(true, 0, 2, "aal1"), 85);
}

#[test]
fn query_results_for_the_board() {
    let results = reveal_required_results(&vec!["q1".to_owned(), "q2".to_owned()]);
    assert_eq!(results.len(), 2);
    assert_eq!(results[1].query_id, "q2");
    assert_eq!(results[0].error.as_deref(), Some("vault.reveal permission is required for connector secrets"));
    assert_eq!(results[0].data_json, "null");
    let failed = QueryResult::err("q", ResourceKind::Postgres, "boom");
    assert!(!failed.ok);
    assert_eq!(failed.raw_json, "null");
    assert_eq!(failed.meta.resource_kind, ResourceKind::Postgres);
    let http = http_result_of(&failed);
    assert_eq!(http.source_id, "q");
    assert_eq!(http.error.as_deref(), Some("boom"));
    assert_eq!(http.display_mode, HttpDisplayMode::List);
}

#[test]
fn resource_kinds_methods_and_query_classes() {
    assert_eq!(ResourceKind::Grpc.label(), "gRPC");
    assert_eq!(ResourceKind::Postgres.as_str(), "postgres");
    assert_eq!(HttpMethod::parse(" patch "), Some(HttpMethod::Patch));
    assert_eq!(HttpMethod::parse("FETCH"), None);
    assert_eq!(HttpMethod::Delete.as_str(), "DELETE");
    let get = QueryConfig::Rest { method: HttpMethod::Get, path: "/x".into(), query_params: vec![], headers: vec![], body: None };
    let post = QueryConfig::Rest { method: HttpMethod::Post, path: "/x".into(), query_params: vec![], headers: vec![], body: None };
    let sql = QueryConfig::Postgres { sql: "select 1".into() };
    assert_eq!(get.execution_class(), QueryExecutionClass::Read);
    assert_eq!(post.execution_class(), QueryExecutionClass::Mutation);
    assert_eq!(sql.execution_class(), QueryExecutionClass::Mutation);
}

#[test]
fn tax_profile_display_helpers() {
    assert_eq!(masked_tin_label("12", " "), "•••-•••-12-00000");
    assert_eq!(masked_tin_label("abc", "00002"), "•••-•••-••••-00002");
    assert_eq!(masked_tin_label("123-456-789", " 00003 "), "•••-•••-6789-00003");
    assert_eq!(bir_form_frequency(" 1601eq "), "quarterly");
    assert_eq!(bir_form_frequency("2307"), "on_demand");
}

fn stored_facts() -> CloudTaxProfileFacts {
    CloudTaxProfileFacts {
        registered_name: "Alice".into(),
        rdo_code: "039".into(),
        line_of_business: "Software".into(),
        registered_address: "Makati".into(),
        zip_code: "1200".into(),
        phone: "02".into(),
        email: "a@example.test".into(),
        taxpayer_type: TaxpayerType::Individual,
        tax_classification: None,
        is_vat_registered: false,
        eopt_tier: Some("tier-1".into()),
        business_start_date: None,
        birth_date: None,
        atc_codes: vec!["WI010".into()],
    }
}

fn empty_patch() -> TaxProfilePatchRequest {
    TaxProfilePatchRequest {
        display_name: None,
        registered_name: None,
        rdo_code: None,
        line_of_business: None,
        registered_address: None,
        zip_code: None,
        phone: None,
        email: None,
        taxpayer_type: None,
        tax_classification: None,
        is_vat_registered: None,
        business_start_date: None,
        updated_at: None,
        tin_root: None,
        branch_code: None,
    }
}

#[test]
fn merge_facts_applies_a_patch() {
    let current = stored_facts();
    let mut patch = empty_patch();
    patch.registered_name = Some("  Alice Corp ".into());
    patch.rdo_code = Some("   ".into());
    patch.zip_code = Some(String::new());
    patch.taxpayer_type = Some(" Corporation ".into());
    patch.is_vat_registered = Some(true);
    let merged = merge_facts(Some(&current), &patch).unwrap();
    assert_eq!(merged.registered_name, "Alice Corp");
    assert_eq!(merged.rdo_code, "039");
    assert_eq!(merged.zip_code, "");
    assert_eq!(merged.taxpayer_type, TaxpayerType::Corporation);
    assert!(merged.is_vat_registered);
    assert_eq!(merged.eopt_tier.as_deref(), Some("tier-1"));
    assert_eq!(merged.atc_codes, vec!["WI010".to_owned()]);

    let missing = merge_facts(None, &patch).unwrap_err();
    assert_eq!(missing.public_code(), "not_found");
    assert_eq!(missing.public_message(), "tax profile not found");

    let mut bad = empty_patch();
    bad.taxpayer_type = Some("alien".into());
    let invalid = merge_facts(Some(&current), &bad).unwrap_err();
    assert_eq!(invalid.public_code(), "validation");
    assert_eq!(invalid.public_message(), "taxpayer_type is invalid");
}

#[test]
fn registration_and_orus_errors_map_to_auth_errors() {
    assert!(parse_registration("123-456-789", "000").is_ok());
    assert_eq!(parse_registration("1234", "00000").unwrap_err().public_message(), "tin_root must be exactly 9 digits");
    assert_eq!(
        parse_registration("123456789", "1").unwrap_err().public_message(),
        "branch_code must be 5 digits (head office 00000)"
    );
    let unconfigured = map_orus_error(OrusError::NotConfigured);
    assert_eq!(unconfigured.public_code(), "configuration");
    assert!(matches!(
        unconfigured,
        AuthStackError::Configuration { ref message } if message.starts_with("ORUS TIN verification is not configured")
    ));
    let rejected = map_orus_error(OrusError::Rejected { reason: "no match".into() });
    assert_eq!(rejected.public_message(), "no match");
}

#[test]
fn settings_values_are_parsed() {
    assert_eq!(config_u64_value("X", &Some(" 42 ".into()), 1).unwrap(), 42);
    assert_eq!(config_u64_value("X", &Some("+7".into()), 1).unwrap(), 7);
    assert_eq!(config_u64_value("X", &None, 9).unwrap(), 9);
    assert_eq!(config_u64_value("X", &Some("  ".into()), 9).unwrap(), 9);
    let err = config_u64_value("AUTH_X", &Some("4x".into()), 1).unwrap_err();
    assert_eq!(err.public_code(), "configuration");
    assert!(matches!(err, AuthStackError::Configuration { ref message } if message == "AUTH_X must be an integer"));
    assert!(config_u32_value("Y", &Some("4294967296".into()), 1).is_err());
    assert_eq!(config_u32_value("Y", &Some("4294967295".into()), 1).unwrap(), u32::MAX);
    assert_eq!(config_u64_value("Z", &Some("18446744073709551615".into()), 1).unwrap(), u64::MAX);
    assert!(config_u64_value("Z", &Some("18446744073709551616".into()), 1).is_err());
    assert!(config_u64_value("Z", &Some("-1".into()), 1).is_err());
    assert!(config_bool_value(&Some(" YES ".into()), false));
    assert!(!config_bool_value(&Some("no".into()), true));
    assert!(config_bool_value(&None, true));
    assert_eq!(session_ttl_seconds_value(&None).unwrap(), 3600);
    assert_eq!(key_version_value(&Some(" ".into())), "development-v1");
    assert_eq!(key_version_value(&Some("v2".into())), "v2");
    assert_eq!(bootstrap_admin_emails("a@x.test, ,b@x.test"), vec!["a@x.test".to_owned(), "b@x.test".to_owned()]);
}

#[test]
fn session_cookie_is_read_from_a_cookie_header() {
    assert_eq!(
        session_id_from_cookie_header("theme=dark; wasi_auth_dev_session= s1 ").as_deref(),
        Some("s1")
    );
    assert_eq!(session_id_from_cookie_header("__Host-session=; other=1"), None);
    assert_eq!(session_id_from_cookie_header("__Host-session"), None);
}

#[test]
fn origins_parse_and_loopback_hosts() {
    let origin = parse_browser_origin("http://[::1]:3008").unwrap();
    assert_eq!(origin.host, "::1");
    assert_eq!(origin.port, Some(3008));
    assert_eq!(origin.scheme, "http");
    let https = parse_browser_origin("https://example.com").unwrap();
    assert_eq!(https.effective_port(), 443);
    assert!(parse_browser_origin("/relative/path").is_none());
    assert!(is_loopback_host("LOCALHOST"));
    assert!(!is_loopback_host("127.0.0.2"));
}

#[test]
fn roles_and_their_permissions() {
    assert_eq!(built_in_role_display_name("owner"), "Owner");
    assert_eq!(built_in_role_display_name("custom-role"), "custom-role");
    let too_many: Vec<String> = (0..101).map(|i| format!("p{i}")).collect();
    let error = validate_role_permissions(&too_many, &[]).unwrap_err();
    assert_eq!(error.public_message(), "role permission list is too large");
    let error = validate_role_permissions(&["x.y".to_owned()], &[]).unwrap_err();
    assert_eq!(error.public_message(), "permission 'x.y' is not assignable to a workspace role");
}

#[test]
fn redacted_debug_shows_only_visible_fields() {
    let login = EmailPasswordLoginRequest {
        email: "person@example.com".to_owned(),
        password: "pw".to_owned(),
        redirect_url: Some("/organizations".to_owned()),
    };
    assert_eq!(
        login.redacted_debug(),
        "EmailPasswordLoginRequest { redirect_url: Some(\"/organizations\"), email: \"[REDACTED]\", password: \"[REDACTED]\" }"
    );
    let refresh = TokenRefreshRequest { refresh_token: "rt".to_owned() };
    assert_eq!(refresh.redacted_debug(), "TokenRefreshRequest { refresh_token: \"[REDACTED]\" }");
}
