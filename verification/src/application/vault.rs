//! The secret vault's rules: which workspace a vault request is about, when revealing a
//! secret needs step-up, and what a legacy-data migration reports.

use vstd::prelude::*;
use crate::application::admin::opt_chars;
use crate::contracts::organization::{OrganizationSummary, WorkspaceLegacyMigrateReport, WorkspaceLegacyMigrateRequest};
use crate::error::AuthStackError;
use crate::text::{
    concat2, decimal, decimal_string, is_blank, is_blank_str, lower_chars, owned, str_eq, to_lower,
    trim, trim_chars, trim_str, vec_is,
};

verus! {

/// Which workspace a vault request names.
#[derive(Clone, Debug, PartialEq, Eq)]
pub enum VaultOrgTarget {
    /// A workspace slug, to resolve to its id.
    Slug(String),
    /// A workspace id.
    Id(String),
    /// Neither: the session's selected workspace (the first one bound when unset).
    SessionDefault,
}

/// A slug (trimmed, not blank) wins over an id (trimmed, not blank); with neither the
/// session's workspace is meant.
pub fn vault_org_target(organization_id: &Option<String>, org_slug: &Option<String>) -> (t: VaultOrgTarget)
    ensures
        match org_slug {
            Some(s) if !is_blank(s@) => t matches VaultOrgTarget::Slug(v) && v@ == trim(s@),
            _ => match organization_id {
                Some(i) if !is_blank(i@) => t matches VaultOrgTarget::Id(v) && v@ == trim(i@),
                _ => t is SessionDefault,
            },
        },
{
    match org_slug {
        Some(s) => if !is_blank_str(s.as_str()) {
            return VaultOrgTarget::Slug(trim_str(s.as_str()));
        },
        None => {},
    }
    match organization_id {
        Some(i) => if !is_blank_str(i.as_str()) {
            return VaultOrgTarget::Id(trim_str(i.as_str()));
        },
        None => {},
    }
    VaultOrgTarget::SessionDefault
}

/// The session's workspace for the vault: there must be one.
pub fn session_vault_org(tenant_id: &Option<String>) -> (r: Result<String, AuthStackError>)
    ensures
        match tenant_id {
            Some(t) if !is_blank(t@) => r matches Ok(v) && v@ == t@,
            _ => r matches Err(AuthStackError::Validation { message: m })
                && m@ == "create a workspace before using the secret vault"@,
        },
{
    match tenant_id {
        Some(t) => if !is_blank_str(t.as_str()) {
            return Ok(t.clone());
        },
        None => {},
    }
    Err(AuthStackError::validation("create a workspace before using the secret vault"))
}

/// Revealing a secret needs step-up when the reveal setting says so (`1`, `true`, `yes`,
/// `on`), not when it says `0`, `false`, `no` or `off`, and otherwise as mutations do.
pub open spec fn reveal_step_up(raw: Option<Seq<char>>, mutation_step_up: bool) -> bool {
    match raw {
        Some(v) => {
            let k = to_lower(trim(v));
            if k == "1"@ || k == "true"@ || k == "yes"@ || k == "on"@ {
                true
            } else if k == "0"@ || k == "false"@ || k == "no"@ || k == "off"@ {
                false
            } else {
                mutation_step_up
            }
        },
        None => mutation_step_up,
    }
}

/// Whether revealing a vault secret needs step-up.
pub fn vault_reveal_step_up(raw: &Option<String>, mutation_step_up: bool) -> (b: bool)
    ensures
        b == reveal_step_up(opt_chars(*raw), mutation_step_up),
{
    match raw {
        Some(v) => {
            let t = trim_chars(v.as_str());
            let k = lower_chars(&t);
            if vec_is(&k, "1") || vec_is(&k, "true") || vec_is(&k, "yes") || vec_is(&k, "on") {
                true
            } else if vec_is(&k, "0") || vec_is(&k, "false") || vec_is(&k, "no") || vec_is(&k, "off") {
                false
            } else {
                mutation_step_up
            }
        },
        None => mutation_step_up,
    }
}

/// The position of the workspace with this id among `orgs[i..]`, or -1.
pub open spec fn org_position(orgs: Seq<OrganizationSummary>, id: Seq<char>, i: int) -> int
    decreases orgs.len() - i,
{
    if i < 0 || i >= orgs.len() {
        -1
    } else if orgs[i].organization_id@ == id {
        i
    } else {
        org_position(orgs, id, i + 1)
    }
}

/// The workspace the vault page opens on: the session's workspace (trimmed id) when it is
/// among the caller's, else the first of them; a caller with none has no vault yet.
pub fn pick_vault_workspace(orgs: Vec<OrganizationSummary>, tenant_id: &Option<String>) -> (r: Result<OrganizationSummary, AuthStackError>)
    ensures
        orgs@.len() == 0 ==> (r matches Err(AuthStackError::NotFound { message: m }) && m@ == "no workspace yet"@),
        orgs@.len() > 0 ==> (r matches Ok(o) && o == ({
            let k = match tenant_id {
                Some(t) => if is_blank(t@) {
                    -1
                } else {
                    org_position(orgs@, trim(t@), 0)
                },
                None => -1,
            };
            if k >= 0 {
                orgs@[k]
            } else {
                orgs@[0]
            }
        })),
{
    if orgs.len() == 0 {
        return Err(AuthStackError::not_found("no workspace yet"));
    }
    let mut list = orgs;
    let ghost all = list@;
    match tenant_id {
        Some(t) => if !is_blank_str(t.as_str()) {
            let tid = trim_str(t.as_str());
            let mut i: usize = 0;
            while i < list.len()
                invariant
                    list@ == all,
                    orgs@ == all,
                    all.len() > 0,
                    tid@ == trim(t@),
                    !is_blank(t@),
                    *tenant_id == Some(*t),
                    i <= all.len(),
                    org_position(all, tid@, 0) == org_position(all, tid@, i as int),
                decreases list.len() - i,
            {
                if str_eq(list[i].organization_id.as_str(), tid.as_str()) {
                    proof {
                        lemma_org_position_bounds(all, tid@, 0);
                    }
                    return Ok(list.remove(i));
                }
                i = i + 1;
            }
        },
        None => {},
    }
    proof {
        if tenant_id is Some && !is_blank(tenant_id->0@) {
            lemma_org_position_bounds(all, trim(tenant_id->0@), 0);
        }
    }
    Ok(list.remove(0))
}

proof fn lemma_org_position_bounds(orgs: Seq<OrganizationSummary>, id: Seq<char>, i: int)
    requires
        0 <= i,
    ensures
        org_position(orgs, id, i) == -1 || i <= org_position(orgs, id, i) < orgs.len(),
    decreases orgs.len() - i,
{
    if i < orgs.len() && orgs[i].organization_id@ != id {
        lemma_org_position_bounds(orgs, id, i + 1);
    }
}

/// The workspace a legacy migration writes into: its id, trimmed, must not be empty.
pub fn legacy_migrate_organization(request: &WorkspaceLegacyMigrateRequest) -> (r: Result<String, AuthStackError>)
    ensures
        is_blank(request.organization_id@) ==> (r matches Err(AuthStackError::Validation { message: m })
            && m@ == "organization_id is required"@),
        !is_blank(request.organization_id@) ==> (r matches Ok(id) && id@ == trim(request.organization_id@)),
{
    let id = trim_str(request.organization_id.as_str());
    proof {
        crate::text::lemma_trim_empty_is_blank(request.organization_id@);
    }
    if id.unicode_len() == 0 {
        return Err(AuthStackError::validation("organization_id is required"));
    }
    Ok(id)
}

/// What a legacy migration tells the caller: a dry run says what it would copy; otherwise
/// whether something was copied, whether secrets must be re-entered, or that there was
/// nothing to do.
pub open spec fn legacy_migrate_message(
    dry_run: bool,
    board_copied: bool,
    secrets_copied: bool,
    secret_rows: u32,
    reenter_count: nat,
) -> Seq<char> {
    if dry_run {
        "Dry run: would copy secrets rows="@ + decimal(secret_rows as nat) + ", reenter_required="@
            + decimal(reenter_count)
    } else if board_copied || secrets_copied {
        "Legacy workspace data migrated into this organization."@
    } else if reenter_count > 0 {
        "Nothing copied automatically; re-enter secrets listed in reenter_required_keys."@
    } else {
        "No legacy user data found (or destination already populated)."@
    }
}

/// The report of a legacy migration into `organization_id`.
pub fn legacy_migrate_report(
    organization_id: String,
    dry_run: bool,
    board_copied: bool,
    secrets_copied: bool,
    secret_rows: u32,
    skipped: u32,
    reenter: Vec<String>,
) -> (report: WorkspaceLegacyMigrateReport)
    ensures
        report.organization_id == organization_id,
        report.dry_run == dry_run,
        report.board_copied == board_copied,
        report.secrets_copied == secrets_copied,
        report.secret_rows_copied == secret_rows,
        report.secret_rows_skipped_reenter == skipped,
        report.reenter_required_keys == reenter,
        report.message@ == legacy_migrate_message(
            dry_run,
            board_copied,
            secrets_copied,
            secret_rows,
            reenter@.len(),
        ),
{
    let message = if dry_run {
        let rows = decimal_string(secret_rows as u64);
        let count = decimal_string(reenter.len() as u64);
        let a = concat2("Dry run: would copy secrets rows=", rows.as_str());
        let b = concat2(a.as_str(), ", reenter_required=");
        concat2(b.as_str(), count.as_str())
    } else if board_copied || secrets_copied {
        owned("Legacy workspace data migrated into this organization.")
    } else if reenter.len() > 0 {
        owned("Nothing copied automatically; re-enter secrets listed in reenter_required_keys.")
    } else {
        owned("No legacy user data found (or destination already populated).")
    };
    WorkspaceLegacyMigrateReport {
        organization_id,
        dry_run,
        board_copied,
        secrets_copied,
        secret_rows_copied: secret_rows,
        secret_rows_skipped_reenter: skipped,
        reenter_required_keys: reenter,
        message,
    }
}

} // verus!
