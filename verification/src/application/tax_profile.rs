//! Tax-profile request handling: applying a patch request to the stored facts, reading a
//! registration from a request and reporting TIN-ownership failures.

use vstd::prelude::*;
use crate::contracts::organization::OrganizationSummary;
use crate::contracts::tax_profile::{MeOrg, MeResponse, TaxProfilePatchRequest};
use crate::domain::orus::{
    FakeOrusVerifier, OrusError, OwnershipProof, ProofMethod, TinOwnershipVerifier,
    UnconfiguredOrusVerifier,
};
use crate::domain::tax_profile::{
    clone_opt_string, clone_strings, owner_user_id_spec, parse_key, taxpayer_type_from,
    AccountHolder, CloudTaxProfileFacts, FactsModel, TaxProfile, TaxProfileError, TaxpayerType,
};
use crate::domain::tin_identity::TinIdentityHash;
use crate::domain::tin::{branch_code_normal, RegistrationKey};
use crate::error::AuthStackError;
use crate::text::{digits_of, is_blank, is_blank_str, owned, str_eq, trim, trim_str};

verus! {

/// A required text field after a patch: the patched value, trimmed, unless it is absent
/// or blank.
pub open spec fn patched_required(patch: Option<String>, current: Seq<char>) -> Seq<char> {
    match patch {
        Some(v) => if is_blank(v@) {
            current
        } else {
            trim(v@)
        },
        None => current,
    }
}

/// An optional text field after a patch: the patched value as sent, when sent.
pub open spec fn patched_text(patch: Option<String>, current: Seq<char>) -> Seq<char> {
    match patch {
        Some(v) => v@,
        None => current,
    }
}

/// The facts after applying `request` to `current`; the facts a patch request does not
/// carry (e-OPT tier, business start and birth dates, ATC codes) are kept.
pub open spec fn merged_facts(current: FactsModel, request: TaxProfilePatchRequest, taxpayer_type: TaxpayerType) -> FactsModel {
    FactsModel {
        registered_name: patched_required(request.registered_name, current.registered_name),
        rdo_code: patched_required(request.rdo_code, current.rdo_code),
        line_of_business: patched_text(request.line_of_business, current.line_of_business),
        registered_address: patched_text(request.registered_address, current.registered_address),
        zip_code: patched_text(request.zip_code, current.zip_code),
        phone: patched_text(request.phone, current.phone),
        email: patched_text(request.email, current.email),
        taxpayer_type,
        tax_classification: match request.tax_classification {
            Some(v) => Some(v@),
            None => current.tax_classification,
        },
        is_vat_registered: match request.is_vat_registered {
            Some(v) => v,
            None => current.is_vat_registered,
        },
        eopt_tier: current.eopt_tier,
        business_start_date: current.business_start_date,
        birth_date: current.birth_date,
        atc_codes: current.atc_codes,
    }
}

fn patch_required(patch: &Option<String>, current: &String) -> (r: String)
    ensures
        r@ == patched_required(*patch, current@),
{
    match patch {
        Some(v) => if is_blank_str(v.as_str()) {
            current.clone()
        } else {
            trim_str(v.as_str())
        },
        None => current.clone(),
    }
}

fn patch_text(patch: &Option<String>, current: &String) -> (r: String)
    ensures
        r@ == patched_text(*patch, current@),
{
    match patch {
        Some(v) => v.clone(),
        None => current.clone(),
    }
}

/// Applies a patch request to the stored facts of a tax profile. There must be stored
/// facts (else `not_found`), and a patched taxpayer type must be one of the known types
/// (else a validation error); every other field takes the patched value when one is sent,
/// the required name and RDO code only when it is not blank (trimmed).
pub fn merge_facts(current: Option<&CloudTaxProfileFacts>, request: &TaxProfilePatchRequest) -> (r: Result<CloudTaxProfileFacts, AuthStackError>)
    ensures
        current is None ==> (r matches Err(AuthStackError::NotFound { message }) && message@
            == "tax profile not found"@),
        current matches Some(c) ==> match request.taxpayer_type {
            Some(raw) => match taxpayer_type_from(parse_key(raw@)) {
                Some(t) => r matches Ok(f) && f@ == merged_facts(c@, *request, t),
                None => r matches Err(AuthStackError::Validation { message }) && message@
                    == "taxpayer_type is invalid"@,
            },
            None => r matches Ok(f) && f@ == merged_facts(c@, *request, c.taxpayer_type),
        },
{
    let current = match current {
        Some(c) => c,
        None => {
            return Err(AuthStackError::not_found("tax profile not found"));
        },
    };
    let taxpayer_type = match &request.taxpayer_type {
        Some(raw) => match TaxpayerType::parse(raw.as_str()) {
            Ok(t) => t,
            Err(e) => {
                let message = e.message();
                return Err(AuthStackError::validation(message.as_str()));
            },
        },
        None => current.taxpayer_type,
    };
    let tax_classification = match &request.tax_classification {
        Some(v) => Some(v.clone()),
        None => clone_opt_string(&current.tax_classification),
    };
    let is_vat_registered = match request.is_vat_registered {
        Some(v) => v,
        None => current.is_vat_registered,
    };
    let merged = CloudTaxProfileFacts {
        registered_name: patch_required(&request.registered_name, &current.registered_name),
        rdo_code: patch_required(&request.rdo_code, &current.rdo_code),
        line_of_business: patch_text(&request.line_of_business, &current.line_of_business),
        registered_address: patch_text(&request.registered_address, &current.registered_address),
        zip_code: patch_text(&request.zip_code, &current.zip_code),
        phone: patch_text(&request.phone, &current.phone),
        email: patch_text(&request.email, &current.email),
        taxpayer_type,
        tax_classification,
        is_vat_registered,
        eopt_tier: clone_opt_string(&current.eopt_tier),
        business_start_date: clone_opt_string(&current.business_start_date),
        birth_date: clone_opt_string(&current.birth_date),
        atc_codes: clone_strings(&current.atc_codes),
    };
    Ok(merged)
}

/// Reads the registration (TIN root and branch) a request names; an invalid one is a
/// validation error carrying the reason.
pub fn parse_registration(tin_root: &str, branch_code: &str) -> (r: Result<RegistrationKey, AuthStackError>)
    ensures
        r is Ok <==> (digits_of(tin_root@).len() == 9 && branch_code_normal(branch_code@) is Some),
        r matches Ok(k) ==> k@.0 == digits_of(tin_root@) && Some(k@.1) == branch_code_normal(
            branch_code@,
        ),
        r matches Err(e) ==> (e matches AuthStackError::Validation { message } && message@ == if digits_of(
            tin_root@,
        ).len() != 9 {
            "tin_root must be exactly 9 digits"@
        } else {
            "branch_code must be 5 digits (head office 00000)"@
        }),
{
    match RegistrationKey::parse(tin_root, branch_code) {
        Ok(k) => Ok(k),
        Err(reason) => Err(AuthStackError::validation(reason.as_str())),
    }
}

/// How a TIN-ownership failure is reported: an unconfigured verifier is a configuration
/// error with the verifier's message, a rejection is a validation error with its reason.
pub fn map_orus_error(error: OrusError) -> (e: AuthStackError)
    ensures
        error is NotConfigured ==> (e matches AuthStackError::Configuration { message } && message@
            == "ORUS TIN verification is not configured (enable ORUS_FAKE_VERIFIER for local)"@),
        error matches OrusError::Rejected { reason } ==> (e matches AuthStackError::Validation {
            message,
        } && message@ == reason@),
{
    match error {
        OrusError::NotConfigured => {
            let message = error.message();
            AuthStackError::configuration(message.as_str())
        },
        OrusError::Rejected { reason } => AuthStackError::validation(reason.as_str()),
    }
}


/// What a caller must still show to act on a tax profile.
#[derive(Clone, Debug, PartialEq, Eq)]
pub enum HolderAccess {
    /// Nothing more.
    Granted,
    /// The caller's session must be a member of the organization.
    MembershipOf { session_id: String, organization_id: String },
}

/// The holder of a profile being created or transferred: the organization named
/// (trimmed, not blank), which the caller's session must belong to (a caller without a
/// session must sign in); otherwise the caller personally.
pub fn resolve_holder(user_id: &str, session_id: Option<&str>, organization_id: Option<&str>) -> (r: Result<(AccountHolder, HolderAccess), AuthStackError>)
    ensures
        match organization_id {
            Some(o) if !is_blank(o@) => match session_id {
                None => r == Err::<(AccountHolder, HolderAccess), AuthStackError>(AuthStackError::AuthRequired),
                Some(s) => r matches Ok((AccountHolder::Organization { organization_id: h }, HolderAccess::MembershipOf { session_id: a, organization_id: b }))
                    && h@ == trim(o@) && b@ == trim(o@) && a@ == s@,
            },
            _ => r matches Ok((AccountHolder::Personal { user_id: u }, HolderAccess::Granted)) && u@ == user_id@,
        },
{
    match organization_id {
        Some(o) => if !is_blank_str(o) {
            let org = trim_str(o);
            return match session_id {
                None => Err(AuthStackError::AuthRequired),
                Some(s) => Ok((
                    AccountHolder::Organization { organization_id: org.clone() },
                    HolderAccess::MembershipOf { session_id: owned(s), organization_id: org },
                )),
            };
        },
        None => {},
    }
    Ok((AccountHolder::Personal { user_id: owned(user_id) }, HolderAccess::Granted))
}

/// Who may act on a held profile: its personal holder; a member of its holding
/// organization (the caller's session must show membership; without a session the
/// caller must sign in); nobody else.
pub open spec fn holder_access(holder: Option<AccountHolder>, user_id: Seq<char>, session_id: Option<Seq<char>>) -> Result<Option<(Seq<char>, Seq<char>)>, AuthStackError> {
    match holder {
        Some(AccountHolder::Personal { user_id: h }) => if h@ == user_id {
            Ok(None)
        } else {
            Err(AuthStackError::Forbidden)
        },
        Some(AccountHolder::Organization { organization_id }) => match session_id {
            None => Err(AuthStackError::AuthRequired),
            Some(s) => Ok(Some((s, organization_id@))),
        },
        None => Err(AuthStackError::Forbidden),
    }
}

pub open spec fn access_view(a: HolderAccess) -> Option<(Seq<char>, Seq<char>)> {
    match a {
        HolderAccess::Granted => None,
        HolderAccess::MembershipOf { session_id, organization_id } => Some((session_id@, organization_id@)),
    }
}

pub open spec fn str_opt(o: Option<&str>) -> Option<Seq<char>> {
    match o {
        Some(s) => Some(s@),
        None => None,
    }
}

/// Whether the caller may act on a profile held by `holder`.
pub fn ensure_holder_or_org(holder: &Option<AccountHolder>, user_id: &str, session_id: Option<&str>) -> (r: Result<HolderAccess, AuthStackError>)
    ensures
        match holder_access(*holder, user_id@, str_opt(session_id)) {
            Ok(a) => r matches Ok(x) && access_view(x) == a,
            Err(e) => r == Err::<HolderAccess, AuthStackError>(e),
        },
{
    match holder {
        Some(AccountHolder::Personal { user_id: h }) => if str_eq(h.as_str(), user_id) {
            Ok(HolderAccess::Granted)
        } else {
            Err(AuthStackError::Forbidden)
        },
        Some(AccountHolder::Organization { organization_id }) => match session_id {
            None => Err(AuthStackError::AuthRequired),
            Some(s) => Ok(HolderAccess::MembershipOf { session_id: owned(s), organization_id: organization_id.clone() }),
        },
        None => Err(AuthStackError::Forbidden),
    }
}

/// Who may read a profile: one that does not exist is not found; its owner (the personal
/// holder, or the verified owner behind an organization) may; otherwise as for acting on
/// it.
pub fn tax_profile_read_access(profile: &TaxProfile, user_id: &str, session_id: Option<&str>) -> (r: Result<HolderAccess, AuthStackError>)
    ensures
        !profile.exists ==> (r matches Err(AuthStackError::NotFound { message: m }) && m@ == "tax profile not found"@),
        profile.exists && owner_user_id_spec(profile@) == Some(user_id@) ==> r == Ok::<HolderAccess, AuthStackError>(HolderAccess::Granted),
        profile.exists && owner_user_id_spec(profile@) != Some(user_id@) ==> match holder_access(profile.holder, user_id@, str_opt(session_id)) {
            Ok(a) => r matches Ok(x) && access_view(x) == a,
            Err(e) => r == Err::<HolderAccess, AuthStackError>(e),
        },
{
    if !profile.exists {
        return Err(AuthStackError::not_found("tax profile not found"));
    }
    let owner = profile.owner_user_id();
    match owner {
        Some(o) => if str_eq(o.as_str(), user_id) {
            return Ok(HolderAccess::Granted);
        },
        None => {},
    }
    ensure_holder_or_org(&profile.holder, user_id, session_id)
}

/// Only a verified, enabled account may create or claim tax profiles.
pub fn check_actor_status(status: &str) -> (r: Result<(), AuthStackError>)
    ensures
        status@ == "pending_verification"@ ==> (r matches Err(AuthStackError::Validation { message: m })
            && m@ == "verify your email before creating or claiming tax profiles"@),
        status@ == "disabled"@ ==> r == Err::<(), AuthStackError>(AuthStackError::Forbidden),
        status@ != "pending_verification"@ && status@ != "disabled"@ ==> r is Ok,
{
    proof {
        reveal_strlit("pending_verification");
        reveal_strlit("disabled");
        assert("pending_verification"@[0] != "disabled"@[0]);
    }
    if str_eq(status, "pending_verification") {
        return Err(AuthStackError::validation("verify your email before creating or claiming tax profiles"));
    }
    if str_eq(status, "disabled") {
        return Err(AuthStackError::Forbidden);
    }
    Ok(())
}

/// A patch may re-attest the registration only with both parts (then they must match the
/// stored identity); one part alone is refused.
pub fn patch_identity_fields(tin_root: &Option<String>, branch_code: &Option<String>) -> (r: Result<Option<(String, String)>, AuthStackError>)
    ensures
        match (*tin_root, *branch_code) {
            (Some(t), Some(b)) if !is_blank(t@) && !is_blank(b@) => r matches Ok(Some((x, y))) && x@ == t@ && y@ == b@,
            _ => {
                let one = (tin_root matches Some(t) && !is_blank(t@)) || (branch_code matches Some(b) && !is_blank(b@));
                &&& one ==> (r matches Err(AuthStackError::Validation { message: m })
                    && m@ == "tin_root and branch_code must be attested together and cannot change identity"@)
                &&& !one ==> r matches Ok(None)
            },
        },
{
    let t = match tin_root {
        Some(t) => if is_blank_str(t.as_str()) {
            None
        } else {
            Some(t.clone())
        },
        None => None,
    };
    let b = match branch_code {
        Some(b) => if is_blank_str(b.as_str()) {
            None
        } else {
            Some(b.clone())
        },
        None => None,
    };
    match (t, b) {
        (Some(x), Some(y)) => Ok(Some((x, y))),
        (None, None) => Ok(None),
        _ => Err(AuthStackError::validation("tin_root and branch_code must be attested together and cannot change identity")),
    }
}

/// A re-attested registration must hash to the stored identity.
pub fn check_identity_unchanged(stored: &Option<TinIdentityHash>, incoming: &TinIdentityHash) -> (r: Result<(), TaxProfileError>)
    ensures
        (stored matches Some(h) && h@ == incoming@) ==> r is Ok,
        !(stored matches Some(h) && h@ == incoming@) ==> r == Err::<(), TaxProfileError>(TaxProfileError::IdentityImmutable),
{
    match stored {
        Some(h) => if str_eq(h.0.as_str(), incoming.0.as_str()) {
            Ok(())
        } else {
            Err(TaxProfileError::IdentityImmutable)
        },
        None => Err(TaxProfileError::IdentityImmutable),
    }
}

/// A patch that names the `updated_at` it was made against (not empty) is stale unless
/// the profile still carries it.
pub fn check_not_stale(expected: &Option<String>, current_updated_at: &Option<String>) -> (r: Result<(), TaxProfileError>)
    ensures
        (expected matches Some(e) && e@.len() > 0 && !(current_updated_at matches Some(c) && c@ == e@))
            ==> r == Err::<(), TaxProfileError>(TaxProfileError::StaleWrite),
        !(expected matches Some(e) && e@.len() > 0 && !(current_updated_at matches Some(c) && c@ == e@)) ==> r is Ok,
{
    match expected {
        Some(e) => if e.unicode_len() > 0 {
            let same = match current_updated_at {
                Some(c) => str_eq(c.as_str(), e.as_str()),
                None => false,
            };
            if !same {
                return Err(TaxProfileError::StaleWrite);
            }
        },
        None => {},
    }
    Ok(())
}

/// The display name a new profile gets: the requested one, trimmed, unless blank; else
/// the registered name.
pub fn profile_display_name(requested: &Option<String>, registered_name: &str) -> (name: String)
    ensures
        name@ == match requested {
            Some(d) => if is_blank(d@) {
                registered_name@
            } else {
                trim(d@)
            },
            None => registered_name@,
        },
{
    match requested {
        Some(d) => if is_blank_str(d.as_str()) {
            owned(registered_name)
        } else {
            trim_str(d.as_str())
        },
        None => owned(registered_name),
    }
}

/// The organization whose profiles are listed: the requested one, else the session's;
/// a blank one means none.
pub fn tax_profile_list_org(requested: Option<String>, tenant: Option<String>) -> (org: Option<String>)
    ensures
        org == match (match requested {
            Some(r) => Some(r),
            None => tenant,
        }) {
            Some(o) => if is_blank(o@) {
                None
            } else {
                Some(o)
            },
            None => None,
        },
{
    let chosen = match requested {
        Some(r) => Some(r),
        None => tenant,
    };
    match chosen {
        Some(o) => if is_blank_str(o.as_str()) {
            None
        } else {
            Some(o)
        },
        None => None,
    }
}

/// The workspace entry of a `me` response.
pub open spec fn me_org_of(o: OrganizationSummary) -> MeOrg {
    MeOrg { org_id: o.organization_id, name: o.name, slug: o.slug, role: o.current_user_role }
}

/// Who the caller is: user id, email and their workspaces with the caller's role, in order.
pub fn me_response(user_id: String, email: Option<String>, organizations: Vec<OrganizationSummary>) -> (me: MeResponse)
    ensures
        me.user_id == user_id,
        me.email == email,
        me.orgs@ == organizations@.map_values(|o: OrganizationSummary| me_org_of(o)),
{
    let ghost all = organizations@;
    let mut rest = organizations;
    let mut orgs: Vec<MeOrg> = Vec::new();
    let total = rest.len();
    let mut done: usize = 0;
    while rest.len() > 0
        invariant
            total == all.len(),
            done + rest@.len() == all.len(),
            rest@ == all.subrange(done as int, all.len() as int),
            orgs@ == all.take(done as int).map_values(|o: OrganizationSummary| me_org_of(o)),
        decreases rest.len(),
    {
        let o = rest.remove(0);
        assert(o == all[done as int]);
        let OrganizationSummary { organization_id, name, slug, current_user_role, .. } = o;
        orgs.push(MeOrg { org_id: organization_id, name, slug, role: current_user_role });
        assert(all.take(done as int + 1).map_values(|o: OrganizationSummary| me_org_of(o)) =~= all.take(
            done as int,
        ).map_values(|o: OrganizationSummary| me_org_of(o)).push(me_org_of(all[done as int])));
        done = done + 1;
        assert(rest@ =~= all.subrange(done as int, all.len() as int));
    }
    assert(all.take(all.len() as int) =~= all);
    MeResponse { user_id, email, orgs }
}


/// Checks that the claimant owns the registration: with the local fake verifier switched
/// on, any signed-in claimant does; otherwise the live verifier, which is not configured,
/// refuses. Failures are reported as `map_orus_error` says.
pub fn verify_tin_ownership(registration: &RegistrationKey, user_id: &str, fake_verifier_enabled: bool) -> (r: Result<OwnershipProof, AuthStackError>)
    ensures
        fake_verifier_enabled && !is_blank(user_id@) ==> (r matches Ok(p) && p.method == ProofMethod::FakeOrus
            && p.registration@ == registration@ && p.claimant_user_id@ == user_id@),
        fake_verifier_enabled && is_blank(user_id@) ==> (r matches Err(AuthStackError::Validation { message })
            && message@ == "claimant is required"@),
        !fake_verifier_enabled ==> (r matches Err(AuthStackError::Configuration { message }) && message@
            == "ORUS TIN verification is not configured (enable ORUS_FAKE_VERIFIER for local)"@),
{
    let outcome = if fake_verifier_enabled {
        FakeOrusVerifier.verify(registration, user_id)
    } else {
        UnconfiguredOrusVerifier.verify(registration, user_id)
    };
    match outcome {
        Ok(proof) => Ok(proof),
        Err(e) => Err(map_orus_error(e)),
    }
}

/// A patch sets what it carries and keeps the rest: each sent field takes the sent value
/// (the required name and RDO code only when not blank, trimmed), each field not sent
/// keeps the stored value, and the facts a patch cannot carry are kept.
pub proof fn lemma_patch_sets_what_it_carries(current: FactsModel, request: TaxProfilePatchRequest, t: TaxpayerType)
    ensures
        ({
            let m = merged_facts(current, request, t);
            &&& request.tax_classification matches Some(v) ==> m.tax_classification == Some(v@)
            &&& request.tax_classification is None ==> m.tax_classification == current.tax_classification
            &&& request.is_vat_registered matches Some(v) ==> m.is_vat_registered == v
            &&& request.is_vat_registered is None ==> m.is_vat_registered == current.is_vat_registered
            &&& request.line_of_business matches Some(v) ==> m.line_of_business == v@
            &&& request.line_of_business is None ==> m.line_of_business == current.line_of_business
            &&& request.registered_address matches Some(v) ==> m.registered_address == v@
            &&& request.registered_address is None ==> m.registered_address == current.registered_address
            &&& request.zip_code matches Some(v) ==> m.zip_code == v@
            &&& request.zip_code is None ==> m.zip_code == current.zip_code
            &&& request.phone matches Some(v) ==> m.phone == v@
            &&& request.phone is None ==> m.phone == current.phone
            &&& request.email matches Some(v) ==> m.email == v@
            &&& request.email is None ==> m.email == current.email
            &&& request.registered_name matches Some(v) ==> (if is_blank(v@) {
                m.registered_name == current.registered_name
            } else {
                m.registered_name == trim(v@)
            })
            &&& request.registered_name is None ==> m.registered_name == current.registered_name
            &&& request.rdo_code matches Some(v) ==> (if is_blank(v@) {
                m.rdo_code == current.rdo_code
            } else {
                m.rdo_code == trim(v@)
            })
            &&& request.rdo_code is None ==> m.rdo_code == current.rdo_code
            &&& m.taxpayer_type == t
            &&& m.eopt_tier == current.eopt_tier
            &&& m.business_start_date == current.business_start_date
            &&& m.birth_date == current.birth_date
            &&& m.atc_codes == current.atc_codes
        }),
{
}

/// Applying the same patch twice is the same as applying it once.
pub proof fn lemma_patch_idempotent(current: FactsModel, request: TaxProfilePatchRequest, t: TaxpayerType)
    ensures
        merged_facts(merged_facts(current, request, t), request, t) == merged_facts(current, request, t),
{
}

/// A patch that carries no field leaves the stored facts as they are (with the stored
/// taxpayer type).
pub proof fn lemma_empty_patch_keeps_facts(current: FactsModel, request: TaxProfilePatchRequest)
    requires
        request.registered_name is None,
        request.rdo_code is None,
        request.line_of_business is None,
        request.registered_address is None,
        request.zip_code is None,
        request.phone is None,
        request.email is None,
        request.tax_classification is None,
        request.is_vat_registered is None,
    ensures
        merged_facts(current, request, current.taxpayer_type) == current,
{
}

} // verus!
