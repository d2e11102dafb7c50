//! Authorization checks around the policy engine: how large a batch may be, when an
//! allowed decision must still be confirmed against direct membership, what a
//! system administrator who has stepped up may additionally do, and what the
//! capabilities report says.

use vstd::prelude::*;
use crate::application::auth::names_view;
use crate::contracts::admin::AuthorizationCapabilitiesResponse;
use crate::error::AuthStackError;
use crate::text::{concat2, decimal, decimal_string, owned};

verus! {

/// A batch of checks may hold at most `max_checks` of them.
pub fn check_batch_size(count: usize, max_checks: usize) -> (r: Result<(), AuthStackError>)
    ensures
        count <= max_checks ==> r is Ok,
        count > max_checks ==> (r matches Err(AuthStackError::Validation { message: m })
            && m@ == "authorization batch exceeds the maximum of "@ + decimal(max_checks as nat)),
{
    if count > max_checks {
        let n = decimal_string(max_checks as u64);
        let m = concat2("authorization batch exceeds the maximum of ", n.as_str());
        return Err(AuthStackError::validation(m.as_str()));
    }
    Ok(())
}

/// An allowed policy decision is confirmed against direct membership when direct
/// membership checks are on, the caller is not a system administrator at AAL2, and the
/// request names an organization; otherwise the policy decision stands.
pub fn direct_membership_check_needed(
    policy_allowed: bool,
    direct_checks_enabled: bool,
    system_admin_aal2: bool,
    has_organization: bool,
) -> (b: bool)
    ensures
        b == (policy_allowed && direct_checks_enabled && !system_admin_aal2 && has_organization),
{
    policy_allowed && direct_checks_enabled && !system_admin_aal2 && has_organization
}

/// The permissions a check is evaluated with: the caller's, plus the requested action
/// itself for a system administrator at AAL2.
pub fn effective_permissions(permissions: &Vec<String>, requested_action: &str, system_admin_aal2: bool) -> (p: Vec<String>)
    ensures
        system_admin_aal2 ==> names_view(p) == names_view(*permissions).push(requested_action@),
        !system_admin_aal2 ==> names_view(p) == names_view(*permissions),
{
    let mut p: Vec<String> = Vec::new();
    let mut i: usize = 0;
    while i < permissions.len()
        invariant
            i <= permissions@.len(),
            names_view(p) == names_view(*permissions).take(i as int),
        decreases permissions.len() - i,
    {
        let v = owned(permissions[i].as_str());
        let ghost before = p@;
        p.push(v);
        proof {
            assert(p@ == before.push(v));
            assert(names_view(p) =~= before.map_values(|s: String| s@).push(v@));
            assert(names_view(*permissions).take(i as int + 1) =~= names_view(*permissions).take(i as int).push(v@));
        }
        i = i + 1;
    }
    assert(names_view(*permissions).take(permissions@.len() as int) =~= names_view(*permissions));
    if system_admin_aal2 {
        let action = owned(requested_action);
        let ghost before = p@;
        p.push(action);
        proof {
            assert(p@ == before.push(action));
            assert(names_view(p) =~= before.map_values(|s: String| s@).push(requested_action@));
        }
    }
    p
}

/// The id of the checked resource: `<resource_type>:<resource_id>`.
pub fn application_resource_id(resource_type: &str, resource_id: &str) -> (id: String)
    ensures
        id@ == resource_type@ + ":"@ + resource_id@,
{
    let a = concat2(resource_type, ":");
    concat2(a.as_str(), resource_id)
}

/// The capabilities report: the provider is the embedded policy engine, with direct
/// membership checks when they are on, which also provide consistency tokens.
pub fn authorization_capabilities_response(
    direct_checks_enabled: bool,
    batch_check: bool,
    list_resources: bool,
    consistency_tokens: bool,
    max_batch_checks: u32,
) -> (r: AuthorizationCapabilitiesResponse)
    ensures
        r.provider@ == if direct_checks_enabled {
            "embedded-cedar+direct-spicedb"@
        } else {
            "embedded-cedar"@
        },
        r.batch_check == batch_check,
        r.list_resources == list_resources,
        r.consistency_tokens == (direct_checks_enabled || consistency_tokens),
        r.max_batch_checks == max_batch_checks,
{
    AuthorizationCapabilitiesResponse {
        provider: if direct_checks_enabled {
            owned("embedded-cedar+direct-spicedb")
        } else {
            owned("embedded-cedar")
        },
        batch_check,
        list_resources,
        consistency_tokens: direct_checks_enabled || consistency_tokens,
        max_batch_checks,
    }
}

} // verus!
