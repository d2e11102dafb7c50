//! System-administration rules: whose audit trail a caller may read, how large a page
//! is, and which OAuth redirects may be allow-listed.

use vstd::prelude::*;
use crate::application::session::has_scope;
use crate::error::AuthStackError;
use crate::text::{is_blank, is_blank_str, str_eq};

verus! {

/// The organization an audit listing is about: the requested one when not blank, else
/// the session's; the shared default tenant means none.
pub open spec fn audit_organization(requested: Option<Seq<char>>, context_org: Option<Seq<char>>) -> Option<Seq<char>> {
    let chosen = match requested {
        Some(r) => if is_blank(r) {
            context_org
        } else {
            Some(r)
        },
        None => context_org,
    };
    match chosen {
        Some(o) => if o == "tenant:default"@ {
            None
        } else {
            chosen
        },
        None => None,
    }
}

pub open spec fn opt_chars(o: Option<String>) -> Option<Seq<char>> {
    match o {
        Some(s) => Some(s@),
        None => None,
    }
}

/// Which organization's audit events the caller may list. A system administrator who has
/// stepped up may list any (or all); anyone else only their session's own organization,
/// and only holding `audit.view`.
pub fn audit_scope(
    requested: Option<String>,
    context_org: Option<String>,
    system_admin_aal2: bool,
    permissions: &[String],
) -> (r: Result<Option<String>, AuthStackError>)
    ensures
        ({
            let org = audit_organization(opt_chars(requested), opt_chars(context_org));
            if system_admin_aal2 || (org is Some && opt_chars(context_org) == org && has_scope(
                permissions@,
                "audit.view"@,
            )) {
                r matches Ok(o) && opt_chars(o) == org
            } else {
                r == Err::<Option<String>, AuthStackError>(AuthStackError::Forbidden)
            }
        }),
{
    let chosen = match requested {
        Some(r) => if is_blank_str(r.as_str()) {
            context_org.clone()
        } else {
            Some(r)
        },
        None => context_org.clone(),
    };
    let organization = match chosen {
        Some(o) => if str_eq(o.as_str(), "tenant:default") {
            None
        } else {
            Some(o)
        },
        None => None,
    };
    if !system_admin_aal2 {
        let same = match (&organization, &context_org) {
            (Some(o), Some(c)) => str_eq(o.as_str(), c.as_str()),
            _ => false,
        };
        if !same {
            return Err(AuthStackError::Forbidden);
        }
        let mut k: usize = 0;
        let mut granted = false;
        while k < permissions.len()
            invariant
                k <= permissions@.len(),
                !granted ==> forall|j: int| 0 <= j < k ==> (#[trigger] permissions@[j])@ != "audit.view"@,
                granted ==> has_scope(permissions@, "audit.view"@),
            decreases permissions.len() - k,
        {
            if str_eq(permissions[k].as_str(), "audit.view") {
                granted = true;
            }
            k = k + 1;
        }
        if !granted {
            return Err(AuthStackError::Forbidden);
        }
    }
    Ok(organization)
}

/// An audit page holds between 1 and 100 events.
pub fn audit_page_limit(limit: usize) -> (n: usize)
    ensures
        n == if limit < 1 {
            1
        } else if limit > 100 {
            100
        } else {
            limit
        },
{
    if limit < 1 {
        1
    } else if limit > 100 {
        100
    } else {
        limit
    }
}

/// A local path: starts with `/` but not `//`, so it cannot name another host.
pub open spec fn local_path(value: Seq<char>) -> bool {
    &&& value.len() > 0
    &&& value[0] == '/'
    &&& !(value.len() > 1 && value[1] == '/')
}

/// Every redirect on the OAuth allowlist must be a local path.
pub fn validate_redirect_allowlist(redirects: &[String]) -> (r: Result<(), AuthStackError>)
    ensures
        (forall|i: int| 0 <= i < redirects@.len() ==> local_path((#[trigger] redirects@[i])@)) ==> r is Ok,
        !(forall|i: int| 0 <= i < redirects@.len() ==> local_path((#[trigger] redirects@[i])@)) ==> (r matches Err(
            AuthStackError::Validation { message: m },
        ) && m@ == "redirect allowlist entries must be local paths"@),
{
    let mut i: usize = 0;
    while i < redirects.len()
        invariant
            i <= redirects@.len(),
            forall|j: int| 0 <= j < i ==> local_path((#[trigger] redirects@[j])@),
        decreases redirects.len() - i,
    {
        let n = redirects[i].unicode_len();
        let ok = n > 0 && redirects[i].get_char(0) == '/' && !(n > 1 && redirects[i].get_char(1) == '/');
        if !ok {
            assert(!local_path(redirects@[i as int]@));
            return Err(AuthStackError::validation("redirect allowlist entries must be local paths"));
        }
        i = i + 1;
    }
    Ok(())
}

} // verus!
