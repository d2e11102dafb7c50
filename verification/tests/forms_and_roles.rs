use buwiz::contracts::dashboard::DashboardWidgetKind;
use buwiz::contracts::organization::{MembershipSummary, PermissionOption};
use buwiz::contracts::resources::HttpMethod;
use buwiz::application::organization::{active_member_count, permission_options};
use buwiz::desktop_oauth::{authorize_form_check, form_or_json_fields, param};
use buwiz::domain::tax_profile::TaxpayerType;
use buwiz::error::AuthStackError;

fn pairs(items: &[(&str, &str)]) -> Vec<(String, String)> {
    items.iter().map(|(k, v)| (k.to_string(), v.to_string())).collect()
}

#[test]
fn form_body_is_read_as_form_fields() {
    let fields = form_or_json_fields("application/x-www-form-urlencoded", b"grant_type=refresh_token&a=b%20c").unwrap();
    assert_eq!(fields, pairs(&[("grant_type", "refresh_token"), ("a", "b c")]));
}

#[test]
fn json_body_keeps_strings_and_renders_other_values() {
    let body = br#"{"a":"text","b":42,"c":null,"d":true,"e":[1,2]}"#;
    let fields = form_or_json_fields("Application/JSON; charset=utf-8", body).unwrap();
    assert_eq!(param(&fields, "a"), Some("text".to_owned()));
    assert_eq!(param(&fields, "b"), Some("42".to_owned()));
    assert_eq!(param(&fields, "c"), None);
    assert_eq!(param(&fields, "d"), Some("true".to_owned()));
    assert_eq!(param(&fields, "e"), Some("[1,2]".to_owned()));
    assert_eq!(fields.len(), 4);
}

#[test]
fn json_body_that_is_not_an_object_has_no_fields() {
    assert_eq!(form_or_json_fields("application/json", b"[1,2,3]").unwrap(), Vec::new());
    assert_eq!(form_or_json_fields("application/json", b"\"x\"").unwrap(), Vec::new());
}

#[test]
fn invalid_json_body_is_a_validation_error() {
    match form_or_json_fields("application/json", b"{not json") {
        Err(AuthStackError::Validation { message }) => assert!(message.starts_with("invalid JSON: ")),
        other => panic!("unexpected {other:?}"),
    }
}

#[test]
fn authorize_form_defaults_the_challenge_method() {
    let good = "a".repeat(43);
    let fields = pairs(&[
        ("client_id", "buwiz-desktop"),
        ("redirect_uri", "buwiz://auth/callback"),
        ("code_challenge", &good),
    ]);
    assert!(authorize_form_check(&fields, &[]).is_ok());
    let mut plain = fields.clone();
    plain.push(("code_challenge_method".to_owned(), "plain".to_owned()));
    assert_eq!(authorize_form_check(&plain, &[]).unwrap_err(), "code_challenge_method must be S256");
    let missing = pairs(&[("redirect_uri", "buwiz://auth/callback")]);
    assert_eq!(authorize_form_check(&missing, &[]).unwrap_err(), "unknown client_id (use buwiz-desktop)");
}

#[test]
fn permission_options_fall_back_to_the_catalog() {
    let ids = vec!["org.members.invite".to_owned(), "vault.read".to_owned()];
    let fallback = permission_options(Vec::new(), &ids);
    assert_eq!(fallback.len(), 2);
    assert_eq!(fallback[0].id, "org.members.invite");
    assert_eq!(fallback[0].label, "Org Members Invite");
    assert_eq!(fallback[0].group, "Catalog");
    assert_eq!(fallback[1].label, "Vault Read");
    let given = vec![PermissionOption { id: "x".to_owned(), label: "X".to_owned(), group: "G".to_owned() }];
    assert_eq!(permission_options(given.clone(), &ids), given);
}

fn membership(role: &str, status: &str) -> MembershipSummary {
    MembershipSummary {
        organization_id: "org".to_owned(),
        user_id: "u".to_owned(),
        primary_email: "u@example.test".to_owned(),
        role_id: role.to_owned(),
        status: status.to_owned(),
        joined_at_ms: 0,
    }
}

#[test]
fn active_member_count_counts_active_members_of_the_role() {
    let members = vec![
        membership("admin", "active"),
        membership("admin", "invited"),
        membership("member", "active"),
        membership("admin", "active"),
    ];
    assert_eq!(active_member_count(&members, "admin"), 2);
    assert_eq!(active_member_count(&members, "member"), 1);
    assert_eq!(active_member_count(&members, "owner"), 0);
}

#[test]
fn taxpayer_type_names_parse_back() {
    for t in [
        TaxpayerType::Individual,
        TaxpayerType::Corporation,
        TaxpayerType::Partnership,
        TaxpayerType::Cooperative,
        TaxpayerType::Estate,
        TaxpayerType::Trust,
    ] {
        assert_eq!(TaxpayerType::parse(t.as_str()).ok(), Some(t));
    }
    assert_eq!(TaxpayerType::parse(" Corporation ").ok(), Some(TaxpayerType::Corporation));
}

#[test]
fn http_method_names_parse_back() {
    for m in [HttpMethod::Get, HttpMethod::Post, HttpMethod::Put, HttpMethod::Patch, HttpMethod::Delete] {
        assert_eq!(HttpMethod::parse(m.as_str()), Some(m));
    }
    assert_eq!(HttpMethod::parse(" patch "), Some(HttpMethod::Patch));
    assert_eq!(HttpMethod::parse("HEAD"), None);
}

#[test]
fn widget_kind_keys_are_distinct() {
    let kinds = DashboardWidgetKind::catalog();
    assert_eq!(kinds.len(), 15);
    for (i, a) in kinds.iter().enumerate() {
        for (j, b) in kinds.iter().enumerate() {
            assert_eq!(a.as_str() == b.as_str(), i == j);
        }
    }
}
