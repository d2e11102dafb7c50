//! Cloud tax-profile aggregate: exclusive ownership of one BIR registration unit.
//!
//! One taxpayer (TIN root) has one or more registration units (TIN root +
//! branch code). This aggregate is the cloud control plane of a single
//! registration unit. Its source of truth is a UUID; exclusive uniqueness is
//! the hashed TIN identity, never a raw TIN key. Desktop IMAP secrets, PIN,
//! TOTP and mailbox OAuth tokens are never stored.
//!
//! Commands are decided by [`TaxProfile::handle`], which returns events;
//! state changes only through [`TaxProfile::apply`]. Both are specified by
//! [`handle_spec`] and [`apply_spec`] over the `*Model` types.

use vstd::prelude::*;

use crate::domain::orus::ProofMethod;
use crate::domain::tin::{branch_code_normal, BranchCode};
use crate::domain::tin_identity::TinIdentityHash;
use crate::text::{
    all_digits, chars_of, is_blank, is_blank_str, is_digit_exec, lower_chars, owned, str_eq,
    string_of, to_lower, trim, trim_chars, trim_str, lemma_trim_unchanged,
};

verus! {

// ---------------------------------------------------------------------------
// Value types
// ---------------------------------------------------------------------------

#[derive(Debug, PartialEq, Eq)]
pub enum AccountHolder {
    Personal { user_id: String },
    Organization { organization_id: String },
}

/// Mathematical model of an [`AccountHolder`].
pub enum HolderModel {
    Personal(Seq<char>),
    Organization(Seq<char>),
}

impl View for AccountHolder {
    type V = HolderModel;

    open spec fn view(&self) -> HolderModel {
        match self {
            AccountHolder::Personal { user_id } => HolderModel::Personal(user_id@),
            AccountHolder::Organization { organization_id } => HolderModel::Organization(
                organization_id@,
            ),
        }
    }
}

pub open spec fn holder_id(h: HolderModel) -> Seq<char> {
    match h {
        HolderModel::Personal(id) => id,
        HolderModel::Organization(id) => id,
    }
}

impl Clone for AccountHolder {
    fn clone(&self) -> (r: Self)
        ensures
            r == *self,
    {
        match self {
            AccountHolder::Personal { user_id } => AccountHolder::Personal {
                user_id: user_id.clone(),
            },
            AccountHolder::Organization { organization_id } => AccountHolder::Organization {
                organization_id: organization_id.clone(),
            },
        }
    }
}

impl AccountHolder {
    pub fn id(&self) -> (s: &str)
        ensures
            s@ == holder_id(self@),
    {
        match self {
            AccountHolder::Personal { user_id } => user_id.as_str(),
            AccountHolder::Organization { organization_id } => organization_id.as_str(),
        }
    }

    pub fn is_personal(&self) -> (b: bool)
        ensures
            b == (self@ is Personal),
    {
        match self {
            AccountHolder::Personal { .. } => true,
            AccountHolder::Organization { .. } => false,
        }
    }

    pub fn is_organization(&self) -> (b: bool)
        ensures
            b == (self@ is Organization),
    {
        match self {
            AccountHolder::Personal { .. } => false,
            AccountHolder::Organization { .. } => true,
        }
    }

    /// Same kind and same id.
    pub fn same_as(&self, other: &Self) -> (b: bool)
        ensures
            b == (self@ == other@),
    {
        match (self, other) {
            (AccountHolder::Personal { user_id: a }, AccountHolder::Personal { user_id: b }) => {
                str_eq(a.as_str(), b.as_str())
            },
            (
                AccountHolder::Organization { organization_id: a },
                AccountHolder::Organization { organization_id: b },
            ) => str_eq(a.as_str(), b.as_str()),
            _ => false,
        }
    }
}

#[derive(Clone, Copy, Debug, PartialEq, Eq, Structural)]
pub enum OwnershipStatus {
    PersonalExclusive,
    CompanyManaged,
}

#[derive(Clone, Copy, Debug, PartialEq, Eq, Structural)]
pub enum VerificationStatus {
    Unverified,
    PendingOrus,
    Verified,
}

#[derive(Clone, Copy, Debug, PartialEq, Eq, Structural)]
pub enum TaxpayerType {
    Individual,
    Corporation,
    Partnership,
    Cooperative,
    Estate,
    Trust,
}

/// Desktop-facing ownership of this cloud row.
#[derive(Clone, Copy, Debug, PartialEq, Eq, Structural)]
pub enum ClaimStatus {
    Owned,
    PendingClaim,
    ReadOnly,
}

/// The key that `parse` functions compare: trimmed and ASCII lower-cased.
pub open spec fn parse_key(raw: Seq<char>) -> Seq<char> {
    to_lower(trim(raw))
}

fn parse_key_exec(raw: &str) -> (s: String)
    ensures
        s@ == parse_key(raw@),
{
    let t = trim_chars(raw);
    let l = lower_chars(&t);
    string_of(&l)
}

fn invalid_facts(reason: &str) -> (e: TaxProfileError)
    ensures
        e@ == ErrorModel::InvalidFacts(reason@),
{
    TaxProfileError::InvalidFacts { reason: owned(reason) }
}

pub open spec fn ownership_name(s: OwnershipStatus) -> Seq<char> {
    match s {
        OwnershipStatus::PersonalExclusive => "personal_exclusive"@,
        OwnershipStatus::CompanyManaged => "company_managed"@,
    }
}

pub open spec fn ownership_from(key: Seq<char>) -> Option<OwnershipStatus> {
    if key == "personal_exclusive"@ {
        Some(OwnershipStatus::PersonalExclusive)
    } else if key == "company_managed"@ {
        Some(OwnershipStatus::CompanyManaged)
    } else {
        None
    }
}

impl OwnershipStatus {
    pub fn as_str(self) -> (s: &'static str)
        ensures
            s@ == ownership_name(self),
    {
        match self {
            OwnershipStatus::PersonalExclusive => "personal_exclusive",
            OwnershipStatus::CompanyManaged => "company_managed",
        }
    }

    pub fn parse(raw: &str) -> (res: Result<Self, TaxProfileError>)
        ensures
            match ownership_from(parse_key(raw@)) {
                Some(s) => res == Ok::<Self, TaxProfileError>(s),
                None => res matches Err(e) && e@ == ErrorModel::InvalidFacts(
                    "ownership_status is invalid"@,
                ),
            },
    {
        let key = parse_key_exec(raw);
        if str_eq(key.as_str(), "personal_exclusive") {
            Ok(OwnershipStatus::PersonalExclusive)
        } else if str_eq(key.as_str(), "company_managed") {
            Ok(OwnershipStatus::CompanyManaged)
        } else {
            Err(invalid_facts("ownership_status is invalid"))
        }
    }
}

pub open spec fn verification_name(s: VerificationStatus) -> Seq<char> {
    match s {
        VerificationStatus::Unverified => "unverified"@,
        VerificationStatus::PendingOrus => "pending_orus"@,
        VerificationStatus::Verified => "verified"@,
    }
}

pub open spec fn verification_from(key: Seq<char>) -> Option<VerificationStatus> {
    if key == "unverified"@ {
        Some(VerificationStatus::Unverified)
    } else if key == "pending_orus"@ {
        Some(VerificationStatus::PendingOrus)
    } else if key == "verified"@ {
        Some(VerificationStatus::Verified)
    } else {
        None
    }
}

impl VerificationStatus {
    pub fn as_str(self) -> (s: &'static str)
        ensures
            s@ == verification_name(self),
    {
        match self {
            VerificationStatus::Unverified => "unverified",
            VerificationStatus::PendingOrus => "pending_orus",
            VerificationStatus::Verified => "verified",
        }
    }

    pub fn parse(raw: &str) -> (res: Result<Self, TaxProfileError>)
        ensures
            match verification_from(parse_key(raw@)) {
                Some(s) => res == Ok::<Self, TaxProfileError>(s),
                None => res matches Err(e) && e@ == ErrorModel::InvalidFacts(
                    "verification_status is invalid"@,
                ),
            },
    {
        let key = parse_key_exec(raw);
        if str_eq(key.as_str(), "unverified") {
            Ok(VerificationStatus::Unverified)
        } else if str_eq(key.as_str(), "pending_orus") {
            Ok(VerificationStatus::PendingOrus)
        } else if str_eq(key.as_str(), "verified") {
            Ok(VerificationStatus::Verified)
        } else {
            Err(invalid_facts("verification_status is invalid"))
        }
    }
}

pub open spec fn taxpayer_type_name(t: TaxpayerType) -> Seq<char> {
    match t {
        TaxpayerType::Individual => "individual"@,
        TaxpayerType::Corporation => "corporation"@,
        TaxpayerType::Partnership => "partnership"@,
        TaxpayerType::Cooperative => "cooperative"@,
        TaxpayerType::Estate => "estate"@,
        TaxpayerType::Trust => "trust"@,
    }
}

pub open spec fn taxpayer_type_from(key: Seq<char>) -> Option<TaxpayerType> {
    if key == "individual"@ {
        Some(TaxpayerType::Individual)
    } else if key == "corporation"@ {
        Some(TaxpayerType::Corporation)
    } else if key == "partnership"@ {
        Some(TaxpayerType::Partnership)
    } else if key == "cooperative"@ {
        Some(TaxpayerType::Cooperative)
    } else if key == "estate"@ {
        Some(TaxpayerType::Estate)
    } else if key == "trust"@ {
        Some(TaxpayerType::Trust)
    } else {
        None
    }
}

impl TaxpayerType {
    pub fn as_str(self) -> (s: &'static str)
        ensures
            s@ == taxpayer_type_name(self),
    {
        match self {
            TaxpayerType::Individual => "individual",
            TaxpayerType::Corporation => "corporation",
            TaxpayerType::Partnership => "partnership",
            TaxpayerType::Cooperative => "cooperative",
            TaxpayerType::Estate => "estate",
            TaxpayerType::Trust => "trust",
        }
    }

    pub fn parse(raw: &str) -> (res: Result<Self, TaxProfileError>)
        ensures
            match taxpayer_type_from(parse_key(raw@)) {
                Some(t) => res == Ok::<Self, TaxProfileError>(t),
                None => res matches Err(e) && e@ == ErrorModel::InvalidFacts(
                    "taxpayer_type is invalid"@,
                ),
            },
    {
        let key = parse_key_exec(raw);
        if str_eq(key.as_str(), "individual") {
            Ok(TaxpayerType::Individual)
        } else if str_eq(key.as_str(), "corporation") {
            Ok(TaxpayerType::Corporation)
        } else if str_eq(key.as_str(), "partnership") {
            Ok(TaxpayerType::Partnership)
        } else if str_eq(key.as_str(), "cooperative") {
            Ok(TaxpayerType::Cooperative)
        } else if str_eq(key.as_str(), "estate") {
            Ok(TaxpayerType::Estate)
        } else if str_eq(key.as_str(), "trust") {
            Ok(TaxpayerType::Trust)
        } else {
            Err(invalid_facts("taxpayer_type is invalid"))
        }
    }
}

pub open spec fn claim_status_name(s: ClaimStatus) -> Seq<char> {
    match s {
        ClaimStatus::Owned => "owned"@,
        ClaimStatus::PendingClaim => "pending_claim"@,
        ClaimStatus::ReadOnly => "read_only"@,
    }
}

pub open spec fn claim_status_from(key: Seq<char>) -> Option<ClaimStatus> {
    if key == "owned"@ {
        Some(ClaimStatus::Owned)
    } else if key == "pending_claim"@ {
        Some(ClaimStatus::PendingClaim)
    } else if key == "read_only"@ {
        Some(ClaimStatus::ReadOnly)
    } else {
        None
    }
}

impl ClaimStatus {
    pub fn as_str(self) -> (s: &'static str)
        ensures
            s@ == claim_status_name(self),
    {
        match self {
            ClaimStatus::Owned => "owned",
            ClaimStatus::PendingClaim => "pending_claim",
            ClaimStatus::ReadOnly => "read_only",
        }
    }

    pub fn parse(raw: &str) -> (res: Result<Self, TaxProfileError>)
        ensures
            match claim_status_from(parse_key(raw@)) {
                Some(s) => res == Ok::<Self, TaxProfileError>(s),
                None => res matches Err(e) && e@ == ErrorModel::InvalidFacts(
                    "claim_status is invalid"@,
                ),
            },
    {
        let key = parse_key_exec(raw);
        if str_eq(key.as_str(), "owned") {
            Ok(ClaimStatus::Owned)
        } else if str_eq(key.as_str(), "pending_claim") {
            Ok(ClaimStatus::PendingClaim)
        } else if str_eq(key.as_str(), "read_only") {
            Ok(ClaimStatus::ReadOnly)
        } else {
            Err(invalid_facts("claim_status is invalid"))
        }
    }
}

// ---------------------------------------------------------------------------
// Facts
// ---------------------------------------------------------------------------

/// Cloud-syncable subset of a taxpayer profile. Never includes PIN, TOTP,
/// IMAP passwords, or mailbox OAuth tokens.
#[derive(Debug, PartialEq, Eq)]
pub struct CloudTaxProfileFacts {
    pub registered_name: String,
    pub rdo_code: String,
    pub line_of_business: String,
    pub registered_address: String,
    pub zip_code: String,
    pub phone: String,
    pub email: String,
    pub taxpayer_type: TaxpayerType,
    pub tax_classification: Option<String>,
    pub is_vat_registered: bool,
    pub eopt_tier: Option<String>,
    pub business_start_date: Option<String>,
    pub birth_date: Option<String>,
    pub atc_codes: Vec<String>,
}

/// Mathematical model of [`CloudTaxProfileFacts`].
pub struct FactsModel {
    pub registered_name: Seq<char>,
    pub rdo_code: Seq<char>,
    pub line_of_business: Seq<char>,
    pub registered_address: Seq<char>,
    pub zip_code: Seq<char>,
    pub phone: Seq<char>,
    pub email: Seq<char>,
    pub taxpayer_type: TaxpayerType,
    pub tax_classification: Option<Seq<char>>,
    pub is_vat_registered: bool,
    pub eopt_tier: Option<Seq<char>>,
    pub business_start_date: Option<Seq<char>>,
    pub birth_date: Option<Seq<char>>,
    pub atc_codes: Seq<Seq<char>>,
}

impl View for CloudTaxProfileFacts {
    type V = FactsModel;

    open spec fn view(&self) -> FactsModel {
        FactsModel {
            registered_name: self.registered_name@,
            rdo_code: self.rdo_code@,
            line_of_business: self.line_of_business@,
            registered_address: self.registered_address@,
            zip_code: self.zip_code@,
            phone: self.phone@,
            email: self.email@,
            taxpayer_type: self.taxpayer_type,
            tax_classification: self.tax_classification.deep_view(),
            is_vat_registered: self.is_vat_registered,
            eopt_tier: self.eopt_tier.deep_view(),
            business_start_date: self.business_start_date.deep_view(),
            birth_date: self.birth_date.deep_view(),
            atc_codes: self.atc_codes.deep_view(),
        }
    }
}

/// A copy of an optional string.
pub fn clone_opt_string(o: &Option<String>) -> (r: Option<String>)
    ensures
        r == *o,
{
    match o {
        Some(s) => Some(s.clone()),
        None => None,
    }
}

/// A copy of a list of strings.
pub fn clone_strings(v: &Vec<String>) -> (r: Vec<String>)
    ensures
        r.deep_view() == v.deep_view(),
{
    let mut r: Vec<String> = Vec::new();
    let mut i: usize = 0;
    while i < v.len()
        invariant
            i <= v@.len(),
            r@.len() == i,
            forall|j: int| 0 <= j < i ==> #[trigger] r@[j] == v@[j],
        decreases v.len() - i,
    {
        r.push(v[i].clone());
        i = i + 1;
    }
    assert(r.deep_view() =~= v.deep_view());
    r
}

impl Clone for CloudTaxProfileFacts {
    fn clone(&self) -> (r: Self)
        ensures
            r@ == self@,
    {
        CloudTaxProfileFacts {
            registered_name: self.registered_name.clone(),
            rdo_code: self.rdo_code.clone(),
            line_of_business: self.line_of_business.clone(),
            registered_address: self.registered_address.clone(),
            zip_code: self.zip_code.clone(),
            phone: self.phone.clone(),
            email: self.email.clone(),
            taxpayer_type: self.taxpayer_type,
            tax_classification: clone_opt_string(&self.tax_classification),
            is_vat_registered: self.is_vat_registered,
            eopt_tier: clone_opt_string(&self.eopt_tier),
            business_start_date: clone_opt_string(&self.business_start_date),
            birth_date: clone_opt_string(&self.birth_date),
            atc_codes: clone_strings(&self.atc_codes),
        }
    }
}

/// The validation error of a set of facts, if any.
pub open spec fn facts_error(f: FactsModel) -> Option<ErrorModel> {
    if is_blank(f.registered_name) {
        Some(ErrorModel::InvalidFacts("registered_name is required"@))
    } else if is_blank(f.rdo_code) {
        Some(ErrorModel::InvalidFacts("rdo_code is required"@))
    } else {
        None
    }
}

impl CloudTaxProfileFacts {
    /// A registered name and an RDO code are required.
    pub fn validate(&self) -> (res: Result<(), TaxProfileError>)
        ensures
            match facts_error(self@) {
                None => res is Ok,
                Some(e) => res matches Err(x) && x@ == e,
            },
    {
        if is_blank_str(self.registered_name.as_str()) {
            return Err(invalid_facts("registered_name is required"));
        }
        if is_blank_str(self.rdo_code.as_str()) {
            return Err(invalid_facts("rdo_code is required"));
        }
        Ok(())
    }
}

// ---------------------------------------------------------------------------
// Errors
// ---------------------------------------------------------------------------

#[derive(Debug, PartialEq, Eq)]
pub enum TaxProfileError {
    InvalidFacts { reason: String },
    AlreadyHeld { holder: AccountHolder },
    NotFound,
    NotHolder,
    ClaimRequiresCompanyHold,
    ReclaimDenied,
    ProofMismatch,
    ConcurrentModification,
    StaleWrite,
    IdentityImmutable,
    AlreadyArchived,
    NotArchived,
}

/// Mathematical model of a [`TaxProfileError`].
pub enum ErrorModel {
    InvalidFacts(Seq<char>),
    AlreadyHeld(HolderModel),
    NotFound,
    NotHolder,
    ClaimRequiresCompanyHold,
    ReclaimDenied,
    ProofMismatch,
    ConcurrentModification,
    StaleWrite,
    IdentityImmutable,
    AlreadyArchived,
    NotArchived,
}

impl View for TaxProfileError {
    type V = ErrorModel;

    open spec fn view(&self) -> ErrorModel {
        match self {
            TaxProfileError::InvalidFacts { reason } => ErrorModel::InvalidFacts(reason@),
            TaxProfileError::AlreadyHeld { holder } => ErrorModel::AlreadyHeld(holder@),
            TaxProfileError::NotFound => ErrorModel::NotFound,
            TaxProfileError::NotHolder => ErrorModel::NotHolder,
            TaxProfileError::ClaimRequiresCompanyHold => ErrorModel::ClaimRequiresCompanyHold,
            TaxProfileError::ReclaimDenied => ErrorModel::ReclaimDenied,
            TaxProfileError::ProofMismatch => ErrorModel::ProofMismatch,
            TaxProfileError::ConcurrentModification => ErrorModel::ConcurrentModification,
            TaxProfileError::StaleWrite => ErrorModel::StaleWrite,
            TaxProfileError::IdentityImmutable => ErrorModel::IdentityImmutable,
            TaxProfileError::AlreadyArchived => ErrorModel::AlreadyArchived,
            TaxProfileError::NotArchived => ErrorModel::NotArchived,
        }
    }
}

/// The human-readable message of an error.
pub open spec fn error_message(e: ErrorModel) -> Seq<char> {
    match e {
        ErrorModel::InvalidFacts(reason) => reason,
        ErrorModel::AlreadyHeld(_) =>
            "This TIN and branch is already held. Add a different branch, or claim it if you are the owner."@,
        ErrorModel::NotFound => "tax profile not found"@,
        ErrorModel::NotHolder => "caller is not the current holder"@,
        ErrorModel::ClaimRequiresCompanyHold =>
            "claim is only allowed while a company/managing account holds the profile"@,
        ErrorModel::ReclaimDenied =>
            "only the verified natural or legal owner can reclaim this profile"@,
        ErrorModel::ProofMismatch => "ownership proof does not match this registration unit"@,
        ErrorModel::ConcurrentModification =>
            "the profile changed; retry with the latest revision"@,
        ErrorModel::StaleWrite =>
            "the profile was updated on another device; retry with the latest updated_at"@,
        ErrorModel::IdentityImmutable =>
            "TIN identity is immutable; never merge two different TINs into one row"@,
        ErrorModel::AlreadyArchived => "tax profile is already archived"@,
        ErrorModel::NotArchived => "tax profile is not archived"@,
    }
}

impl TaxProfileError {
    /// Human-readable message.
    pub fn message(&self) -> (m: String)
        ensures
            m@ == error_message(self@),
    {
        match self {
            TaxProfileError::InvalidFacts { reason } => reason.clone(),
            TaxProfileError::AlreadyHeld { .. } => owned(
                "This TIN and branch is already held. Add a different branch, or claim it if you are the owner.",
            ),
            TaxProfileError::NotFound => owned("tax profile not found"),
            TaxProfileError::NotHolder => owned("caller is not the current holder"),
            TaxProfileError::ClaimRequiresCompanyHold => owned(
                "claim is only allowed while a company/managing account holds the profile",
            ),
            TaxProfileError::ReclaimDenied => owned(
                "only the verified natural or legal owner can reclaim this profile",
            ),
            TaxProfileError::ProofMismatch => owned(
                "ownership proof does not match this registration unit",
            ),
            TaxProfileError::ConcurrentModification => owned(
                "the profile changed; retry with the latest revision",
            ),
            TaxProfileError::StaleWrite => owned(
                "the profile was updated on another device; retry with the latest updated_at",
            ),
            TaxProfileError::IdentityImmutable => owned(
                "TIN identity is immutable; never merge two different TINs into one row",
            ),
            TaxProfileError::AlreadyArchived => owned("tax profile is already archived"),
            TaxProfileError::NotArchived => owned("tax profile is not archived"),
        }
    }
}

// ---------------------------------------------------------------------------
// Commands and events
// ---------------------------------------------------------------------------

#[allow(inconsistent_fields)]
#[derive(Debug, PartialEq, Eq)]
pub enum TaxProfileCommand {
    /// Create the cloud row. TIN exclusivity is enforced via `tin_hash` only.
    RegisterTaxProfile {
        profile_id: String,
        account_id: String,
        holder: AccountHolder,
        facts: CloudTaxProfileFacts,
        display_name: String,
        tin_hash: TinIdentityHash,
        tin_last4: String,
        branch_code: String,
        actor_user_id: String,
        occurred_at: String,
    },
    /// Patch identity / contact / classification. Never secrets; never TIN.
    UpdateTaxProfileIdentity {
        display_name: Option<String>,
        facts: Option<CloudTaxProfileFacts>,
        expected_updated_at: Option<String>,
        actor_user_id: String,
        occurred_at: String,
    },
    ArchiveTaxProfile { actor_user_id: String, occurred_at: String },
    RestoreTaxProfile { actor_user_id: String, occurred_at: String },
    /// A personal owner takes over a company-managed profile.
    Claim {
        claimant: AccountHolder,
        actor_user_id: String,
        identity_hash: TinIdentityHash,
        proof_method: ProofMethod,
    },
    Reclaim { actor_user_id: String, identity_hash: TinIdentityHash, proof_method: ProofMethod },
    Transfer { new_holder: AccountHolder, actor_user_id: String },
}

/// Mathematical model of a [`TaxProfileCommand`].
#[allow(inconsistent_fields)]
pub enum CommandModel {
    RegisterTaxProfile {
        profile_id: Seq<char>,
        account_id: Seq<char>,
        holder: HolderModel,
        facts: FactsModel,
        display_name: Seq<char>,
        tin_hash: Seq<char>,
        tin_last4: Seq<char>,
        branch_code: Seq<char>,
        actor_user_id: Seq<char>,
        occurred_at: Seq<char>,
    },
    UpdateTaxProfileIdentity {
        display_name: Option<Seq<char>>,
        facts: Option<FactsModel>,
        expected_updated_at: Option<Seq<char>>,
        actor_user_id: Seq<char>,
        occurred_at: Seq<char>,
    },
    ArchiveTaxProfile { actor_user_id: Seq<char>, occurred_at: Seq<char> },
    RestoreTaxProfile { actor_user_id: Seq<char>, occurred_at: Seq<char> },
    Claim {
        claimant: HolderModel,
        actor_user_id: Seq<char>,
        identity_hash: Seq<char>,
        proof_method: ProofMethod,
    },
    Reclaim { actor_user_id: Seq<char>, identity_hash: Seq<char>, proof_method: ProofMethod },
    Transfer { new_holder: HolderModel, actor_user_id: Seq<char> },
}

pub open spec fn opt_facts_view(f: Option<CloudTaxProfileFacts>) -> Option<FactsModel> {
    match f {
        Some(x) => Some(x@),
        None => None,
    }
}

impl View for TaxProfileCommand {
    type V = CommandModel;

    open spec fn view(&self) -> CommandModel {
        match self {
            TaxProfileCommand::RegisterTaxProfile {
                profile_id,
                account_id,
                holder,
                facts,
                display_name,
                tin_hash,
                tin_last4,
                branch_code,
                actor_user_id,
                occurred_at,
            } => CommandModel::RegisterTaxProfile {
                profile_id: profile_id@,
                account_id: account_id@,
                holder: holder@,
                facts: facts@,
                display_name: display_name@,
                tin_hash: tin_hash@,
                tin_last4: tin_last4@,
                branch_code: branch_code@,
                actor_user_id: actor_user_id@,
                occurred_at: occurred_at@,
            },
            TaxProfileCommand::UpdateTaxProfileIdentity {
                display_name,
                facts,
                expected_updated_at,
                actor_user_id,
                occurred_at,
            } => CommandModel::UpdateTaxProfileIdentity {
                display_name: display_name.deep_view(),
                facts: opt_facts_view(*facts),
                expected_updated_at: expected_updated_at.deep_view(),
                actor_user_id: actor_user_id@,
                occurred_at: occurred_at@,
            },
            TaxProfileCommand::ArchiveTaxProfile { actor_user_id, occurred_at } =>
                CommandModel::ArchiveTaxProfile {
                actor_user_id: actor_user_id@,
                occurred_at: occurred_at@,
            },
            TaxProfileCommand::RestoreTaxProfile { actor_user_id, occurred_at } =>
                CommandModel::RestoreTaxProfile {
                actor_user_id: actor_user_id@,
                occurred_at: occurred_at@,
            },
            TaxProfileCommand::Claim { claimant, actor_user_id, identity_hash, proof_method } =>
                CommandModel::Claim {
                claimant: claimant@,
                actor_user_id: actor_user_id@,
                identity_hash: identity_hash@,
                proof_method: *proof_method,
            },
            TaxProfileCommand::Reclaim { actor_user_id, identity_hash, proof_method } =>
                CommandModel::Reclaim {
                actor_user_id: actor_user_id@,
                identity_hash: identity_hash@,
                proof_method: *proof_method,
            },
            TaxProfileCommand::Transfer { new_holder, actor_user_id } => CommandModel::Transfer {
                new_holder: new_holder@,
                actor_user_id: actor_user_id@,
            },
        }
    }
}

#[allow(inconsistent_fields)]
#[derive(Debug, PartialEq, Eq)]
pub enum TaxProfileEvent {
    TaxProfileRegistered {
        profile_id: String,
        account_id: String,
        tin_hash: TinIdentityHash,
        tin_last4: String,
        branch_code: String,
        display_name: String,
        holder: AccountHolder,
        ownership: OwnershipStatus,
        verification: VerificationStatus,
        facts: CloudTaxProfileFacts,
        actor_user_id: String,
        occurred_at: String,
    },
    Claimed {
        holder: AccountHolder,
        ownership: OwnershipStatus,
        verification: VerificationStatus,
        verified_owner_user_id: String,
        proof_method: ProofMethod,
        actor_user_id: String,
    },
    Reclaimed {
        holder: AccountHolder,
        ownership: OwnershipStatus,
        verification: VerificationStatus,
        verified_owner_user_id: String,
        proof_method: ProofMethod,
        actor_user_id: String,
    },
    Transferred { holder: AccountHolder, ownership: OwnershipStatus, actor_user_id: String },
    TaxProfileIdentityUpdated {
        display_name: String,
        facts: CloudTaxProfileFacts,
        actor_user_id: String,
        occurred_at: String,
    },
    TaxProfileArchived { actor_user_id: String, occurred_at: String },
    TaxProfileRestored { actor_user_id: String, occurred_at: String },
}

/// Mathematical model of a [`TaxProfileEvent`].
#[allow(inconsistent_fields)]
pub enum EventModel {
    TaxProfileRegistered {
        profile_id: Seq<char>,
        account_id: Seq<char>,
        tin_hash: Seq<char>,
        tin_last4: Seq<char>,
        branch_code: Seq<char>,
        display_name: Seq<char>,
        holder: HolderModel,
        ownership: OwnershipStatus,
        verification: VerificationStatus,
        facts: FactsModel,
        actor_user_id: Seq<char>,
        occurred_at: Seq<char>,
    },
    Claimed {
        holder: HolderModel,
        ownership: OwnershipStatus,
        verification: VerificationStatus,
        verified_owner_user_id: Seq<char>,
        proof_method: ProofMethod,
        actor_user_id: Seq<char>,
    },
    Reclaimed {
        holder: HolderModel,
        ownership: OwnershipStatus,
        verification: VerificationStatus,
        verified_owner_user_id: Seq<char>,
        proof_method: ProofMethod,
        actor_user_id: Seq<char>,
    },
    Transferred { holder: HolderModel, ownership: OwnershipStatus, actor_user_id: Seq<char> },
    TaxProfileIdentityUpdated {
        display_name: Seq<char>,
        facts: FactsModel,
        actor_user_id: Seq<char>,
        occurred_at: Seq<char>,
    },
    TaxProfileArchived { actor_user_id: Seq<char>, occurred_at: Seq<char> },
    TaxProfileRestored { actor_user_id: Seq<char>, occurred_at: Seq<char> },
}

impl View for TaxProfileEvent {
    type V = EventModel;

    open spec fn view(&self) -> EventModel {
        match self {
            TaxProfileEvent::TaxProfileRegistered {
                profile_id,
                account_id,
                tin_hash,
                tin_last4,
                branch_code,
                display_name,
                holder,
                ownership,
                verification,
                facts,
                actor_user_id,
                occurred_at,
            } => EventModel::TaxProfileRegistered {
                profile_id: profile_id@,
                account_id: account_id@,
                tin_hash: tin_hash@,
                tin_last4: tin_last4@,
                branch_code: branch_code@,
                display_name: display_name@,
                holder: holder@,
                ownership: *ownership,
                verification: *verification,
                facts: facts@,
                actor_user_id: actor_user_id@,
                occurred_at: occurred_at@,
            },
            TaxProfileEvent::Claimed {
                holder,
                ownership,
                verification,
                verified_owner_user_id,
                proof_method,
                actor_user_id,
            } => EventModel::Claimed {
                holder: holder@,
                ownership: *ownership,
                verification: *verification,
                verified_owner_user_id: verified_owner_user_id@,
                proof_method: *proof_method,
                actor_user_id: actor_user_id@,
            },
            TaxProfileEvent::Reclaimed {
                holder,
                ownership,
                verification,
                verified_owner_user_id,
                proof_method,
                actor_user_id,
            } => EventModel::Reclaimed {
                holder: holder@,
                ownership: *ownership,
                verification: *verification,
                verified_owner_user_id: verified_owner_user_id@,
                proof_method: *proof_method,
                actor_user_id: actor_user_id@,
            },
            TaxProfileEvent::Transferred { holder, ownership, actor_user_id } =>
                EventModel::Transferred {
                holder: holder@,
                ownership: *ownership,
                actor_user_id: actor_user_id@,
            },
            TaxProfileEvent::TaxProfileIdentityUpdated {
                display_name,
                facts,
                actor_user_id,
                occurred_at,
            } => EventModel::TaxProfileIdentityUpdated {
                display_name: display_name@,
                facts: facts@,
                actor_user_id: actor_user_id@,
                occurred_at: occurred_at@,
            },
            TaxProfileEvent::TaxProfileArchived { actor_user_id, occurred_at } =>
                EventModel::TaxProfileArchived {
                actor_user_id: actor_user_id@,
                occurred_at: occurred_at@,
            },
            TaxProfileEvent::TaxProfileRestored { actor_user_id, occurred_at } =>
                EventModel::TaxProfileRestored {
                actor_user_id: actor_user_id@,
                occurred_at: occurred_at@,
            },
        }
    }
}

pub open spec fn event_type_name(e: EventModel) -> Seq<char> {
    match e {
        EventModel::TaxProfileRegistered { .. } => "tax_profile.registered"@,
        EventModel::Claimed { .. } => "tax_profile.claimed"@,
        EventModel::Reclaimed { .. } => "tax_profile.reclaimed"@,
        EventModel::Transferred { .. } => "tax_profile.transferred"@,
        EventModel::TaxProfileIdentityUpdated { .. } => "tax_profile.identity_updated"@,
        EventModel::TaxProfileArchived { .. } => "tax_profile.archived"@,
        EventModel::TaxProfileRestored { .. } => "tax_profile.restored"@,
    }
}

impl TaxProfileEvent {
    pub fn event_type(&self) -> (s: &'static str)
        ensures
            s@ == event_type_name(self@),
    {
        match self {
            TaxProfileEvent::TaxProfileRegistered { .. } => "tax_profile.registered",
            TaxProfileEvent::Claimed { .. } => "tax_profile.claimed",
            TaxProfileEvent::Reclaimed { .. } => "tax_profile.reclaimed",
            TaxProfileEvent::Transferred { .. } => "tax_profile.transferred",
            TaxProfileEvent::TaxProfileIdentityUpdated { .. } => "tax_profile.identity_updated",
            TaxProfileEvent::TaxProfileArchived { .. } => "tax_profile.archived",
            TaxProfileEvent::TaxProfileRestored { .. } => "tax_profile.restored",
        }
    }
}

/// Models of a list of events.
pub open spec fn events_model(v: Seq<TaxProfileEvent>) -> Seq<EventModel> {
    v.map_values(|e: TaxProfileEvent| e@)
}

/// Model of the outcome of a command.
pub open spec fn outcome(r: Result<Vec<TaxProfileEvent>, TaxProfileError>) -> Result<
    Seq<EventModel>,
    ErrorModel,
> {
    match r {
        Ok(v) => Ok(events_model(v@)),
        Err(e) => Err(e@),
    }
}

fn single(e: TaxProfileEvent) -> (v: Vec<TaxProfileEvent>)
    ensures
        events_model(v@) == seq![e@],
{
    let v = vec![e];
    assert(events_model(v@) =~= seq![e@]);
    v
}

// ---------------------------------------------------------------------------
// The aggregate
// ---------------------------------------------------------------------------

/// Exclusive-ownership aggregate for one registration unit (UUID identity).
#[derive(Debug, PartialEq, Eq)]
pub struct TaxProfile {
    pub exists: bool,
    pub profile_id: Option<String>,
    pub account_id: Option<String>,
    pub identity_hash: Option<TinIdentityHash>,
    pub tin_last4: Option<String>,
    pub branch_code: Option<String>,
    pub display_name: Option<String>,
    pub holder: Option<AccountHolder>,
    pub ownership: Option<OwnershipStatus>,
    pub verification: VerificationStatus,
    pub facts: Option<CloudTaxProfileFacts>,
    pub verified_owner_user_id: Option<String>,
    pub is_archived: bool,
    pub updated_at: Option<String>,
}

/// Mathematical model of a [`TaxProfile`].
pub struct ProfileModel {
    pub exists: bool,
    pub profile_id: Option<Seq<char>>,
    pub account_id: Option<Seq<char>>,
    pub identity_hash: Option<Seq<char>>,
    pub tin_last4: Option<Seq<char>>,
    pub branch_code: Option<Seq<char>>,
    pub display_name: Option<Seq<char>>,
    pub holder: Option<HolderModel>,
    pub ownership: Option<OwnershipStatus>,
    pub verification: VerificationStatus,
    pub facts: Option<FactsModel>,
    pub verified_owner_user_id: Option<Seq<char>>,
    pub is_archived: bool,
    pub updated_at: Option<Seq<char>>,
}

pub open spec fn opt_holder_view(h: Option<AccountHolder>) -> Option<HolderModel> {
    match h {
        Some(x) => Some(x@),
        None => None,
    }
}

pub open spec fn opt_hash_view(h: Option<TinIdentityHash>) -> Option<Seq<char>> {
    match h {
        Some(x) => Some(x@),
        None => None,
    }
}

impl View for TaxProfile {
    type V = ProfileModel;

    open spec fn view(&self) -> ProfileModel {
        ProfileModel {
            exists: self.exists,
            profile_id: self.profile_id.deep_view(),
            account_id: self.account_id.deep_view(),
            identity_hash: opt_hash_view(self.identity_hash),
            tin_last4: self.tin_last4.deep_view(),
            branch_code: self.branch_code.deep_view(),
            display_name: self.display_name.deep_view(),
            holder: opt_holder_view(self.holder),
            ownership: self.ownership,
            verification: self.verification,
            facts: opt_facts_view(self.facts),
            verified_owner_user_id: self.verified_owner_user_id.deep_view(),
            is_archived: self.is_archived,
            updated_at: self.updated_at.deep_view(),
        }
    }
}

/// The state before any event.
pub open spec fn initial_profile() -> ProfileModel {
    ProfileModel {
        exists: false,
        profile_id: None,
        account_id: None,
        identity_hash: None,
        tin_last4: None,
        branch_code: None,
        display_name: None,
        holder: None,
        ownership: None,
        verification: VerificationStatus::Unverified,
        facts: None,
        verified_owner_user_id: None,
        is_archived: false,
        updated_at: None,
    }
}

/// A registered profile has a holder.
pub open spec fn well_formed(p: ProfileModel) -> bool {
    p.exists ==> p.holder is Some
}

pub open spec fn ownership_for(h: HolderModel) -> OwnershipStatus {
    match h {
        HolderModel::Personal(_) => OwnershipStatus::PersonalExclusive,
        HolderModel::Organization(_) => OwnershipStatus::CompanyManaged,
    }
}

pub open spec fn claim_status_spec(p: ProfileModel, actor: Seq<char>) -> ClaimStatus {
    match p.holder {
        Some(HolderModel::Personal(user_id)) => if user_id == actor {
            ClaimStatus::Owned
        } else {
            ClaimStatus::ReadOnly
        },
        Some(HolderModel::Organization(_)) => if p.verified_owner_user_id == Some(actor) {
            ClaimStatus::ReadOnly
        } else {
            ClaimStatus::PendingClaim
        },
        None => ClaimStatus::ReadOnly,
    }
}

pub open spec fn owner_user_id_spec(p: ProfileModel) -> Option<Seq<char>> {
    match p.holder {
        Some(HolderModel::Personal(user_id)) => Some(user_id),
        Some(HolderModel::Organization(_)) => p.verified_owner_user_id,
        None => None,
    }
}

pub open spec fn org_id_spec(p: ProfileModel) -> Option<Seq<char>> {
    match p.holder {
        Some(HolderModel::Organization(id)) => Some(id),
        _ => None,
    }
}

/// Registration decision.
pub open spec fn register_spec(
    p: ProfileModel,
    profile_id: Seq<char>,
    account_id: Seq<char>,
    holder: HolderModel,
    facts: FactsModel,
    display_name: Seq<char>,
    tin_hash: Seq<char>,
    tin_last4: Seq<char>,
    branch_code: Seq<char>,
    actor_user_id: Seq<char>,
    occurred_at: Seq<char>,
) -> Result<Seq<EventModel>, ErrorModel> {
    if facts_error(facts) is Some {
        Err(facts_error(facts)->0)
    } else if p.exists {
        Err(ErrorModel::AlreadyHeld(p.holder->0))
    } else if is_blank(profile_id) {
        Err(ErrorModel::InvalidFacts("profile id is required"@))
    } else if is_blank(account_id) {
        Err(ErrorModel::InvalidFacts("account_id is required"@))
    } else if !(tin_last4.len() == 4 && all_digits(tin_last4)) {
        Err(ErrorModel::InvalidFacts("tin_last4 is invalid"@))
    } else {
        match branch_code_normal(branch_code) {
            None => Err(
                ErrorModel::InvalidFacts("branch_code must be 5 digits (head office 00000)"@),
            ),
            Some(branch) => Ok(
                seq![
                    EventModel::TaxProfileRegistered {
                        profile_id,
                        account_id,
                        tin_hash,
                        tin_last4,
                        branch_code: branch,
                        display_name: if is_blank(display_name) {
                            facts.registered_name
                        } else {
                            trim(display_name)
                        },
                        holder,
                        ownership: ownership_for(holder),
                        verification: VerificationStatus::Unverified,
                        facts,
                        actor_user_id,
                        occurred_at,
                    },
                ],
            ),
        }
    }
}

/// The check that an attested identity hash is this profile's.
pub open spec fn identity_error(p: ProfileModel, hash: Seq<char>) -> Option<ErrorModel> {
    match p.identity_hash {
        None => Some(ErrorModel::NotFound),
        Some(current) => if current == hash {
            None
        } else {
            Some(ErrorModel::ProofMismatch)
        },
    }
}

/// Claim decision: a personal owner takes a company-managed profile.
pub open spec fn claim_spec(
    p: ProfileModel,
    claimant: HolderModel,
    actor_user_id: Seq<char>,
    hash: Seq<char>,
    proof_method: ProofMethod,
) -> Result<Seq<EventModel>, ErrorModel> {
    if !p.exists {
        Err(ErrorModel::NotFound)
    } else if identity_error(p, hash) is Some {
        Err(identity_error(p, hash)->0)
    } else if p.ownership != Some(OwnershipStatus::CompanyManaged) {
        Err(ErrorModel::ClaimRequiresCompanyHold)
    } else if !(claimant is Personal && holder_id(claimant) == actor_user_id) {
        Err(ErrorModel::InvalidFacts("only a personal account can claim as the real owner"@))
    } else {
        Ok(
            seq![
                EventModel::Claimed {
                    holder: claimant,
                    ownership: OwnershipStatus::PersonalExclusive,
                    verification: VerificationStatus::Verified,
                    verified_owner_user_id: actor_user_id,
                    proof_method,
                    actor_user_id,
                },
            ],
        )
    }
}

/// Reclaim decision: the verified owner takes the profile back.
pub open spec fn reclaim_spec(
    p: ProfileModel,
    actor_user_id: Seq<char>,
    hash: Seq<char>,
    proof_method: ProofMethod,
) -> Result<Seq<EventModel>, ErrorModel> {
    if !p.exists {
        Err(ErrorModel::NotFound)
    } else if identity_error(p, hash) is Some {
        Err(identity_error(p, hash)->0)
    } else if p.holder == Some(HolderModel::Personal(actor_user_id)) {
        Err(ErrorModel::InvalidFacts("caller already holds exclusive control"@))
    } else if p.verified_owner_user_id != Some(actor_user_id) && !(proof_method is FakeOrus
        || proof_method is Orus) {
        Err(ErrorModel::ReclaimDenied)
    } else {
        Ok(
            seq![
                EventModel::Reclaimed {
                    holder: HolderModel::Personal(actor_user_id),
                    ownership: OwnershipStatus::PersonalExclusive,
                    verification: VerificationStatus::Verified,
                    verified_owner_user_id: actor_user_id,
                    proof_method,
                    actor_user_id,
                },
            ],
        )
    }
}

/// Transfer decision.
pub open spec fn transfer_spec(p: ProfileModel, new_holder: HolderModel, actor_user_id: Seq<char>) -> Result<
    Seq<EventModel>,
    ErrorModel,
> {
    if !p.exists || p.holder is None {
        Err(ErrorModel::NotFound)
    } else if (p.holder->0 matches HolderModel::Personal(u) && u != actor_user_id) {
        Err(ErrorModel::NotHolder)
    } else if p.holder->0 == new_holder {
        Err(ErrorModel::InvalidFacts("new holder must be different"@))
    } else {
        Ok(
            seq![
                EventModel::Transferred {
                    holder: new_holder,
                    ownership: ownership_for(new_holder),
                    actor_user_id,
                },
            ],
        )
    }
}

/// Identity patch decision (last write wins on `updated_at`).
pub open spec fn update_identity_spec(
    p: ProfileModel,
    display_name: Option<Seq<char>>,
    facts: Option<FactsModel>,
    expected_updated_at: Option<Seq<char>>,
    actor_user_id: Seq<char>,
    occurred_at: Seq<char>,
) -> Result<Seq<EventModel>, ErrorModel> {
    if !p.exists {
        Err(ErrorModel::NotFound)
    } else if p.account_id != Some(actor_user_id) {
        Err(ErrorModel::NotHolder)
    } else if p.is_archived {
        Err(ErrorModel::AlreadyArchived)
    } else if expected_updated_at is Some && p.updated_at != expected_updated_at {
        Err(ErrorModel::StaleWrite)
    } else if facts is Some && facts_error(facts->0) is Some {
        Err(facts_error(facts->0)->0)
    } else if facts is None && p.facts is None {
        Err(ErrorModel::NotFound)
    } else {
        let next_facts = if facts is Some {
            facts->0
        } else {
            p.facts->0
        };
        let next_name = if display_name is Some && !is_blank(display_name->0) {
            trim(display_name->0)
        } else if p.display_name is Some {
            p.display_name->0
        } else {
            next_facts.registered_name
        };
        Ok(
            seq![
                EventModel::TaxProfileIdentityUpdated {
                    display_name: next_name,
                    facts: next_facts,
                    actor_user_id,
                    occurred_at,
                },
            ],
        )
    }
}

pub open spec fn archive_spec(p: ProfileModel, actor_user_id: Seq<char>, occurred_at: Seq<char>) -> Result<
    Seq<EventModel>,
    ErrorModel,
> {
    if !p.exists {
        Err(ErrorModel::NotFound)
    } else if p.account_id != Some(actor_user_id) {
        Err(ErrorModel::NotHolder)
    } else if p.is_archived {
        Err(ErrorModel::AlreadyArchived)
    } else {
        Ok(seq![EventModel::TaxProfileArchived { actor_user_id, occurred_at }])
    }
}

pub open spec fn restore_spec(p: ProfileModel, actor_user_id: Seq<char>, occurred_at: Seq<char>) -> Result<
    Seq<EventModel>,
    ErrorModel,
> {
    if !p.exists {
        Err(ErrorModel::NotFound)
    } else if p.account_id != Some(actor_user_id) {
        Err(ErrorModel::NotHolder)
    } else if !p.is_archived {
        Err(ErrorModel::NotArchived)
    } else {
        Ok(seq![EventModel::TaxProfileRestored { actor_user_id, occurred_at }])
    }
}

/// What [`TaxProfile::handle`] decides for a command.
pub open spec fn handle_spec(p: ProfileModel, c: CommandModel) -> Result<Seq<EventModel>, ErrorModel> {
    match c {
        CommandModel::RegisterTaxProfile {
            profile_id,
            account_id,
            holder,
            facts,
            display_name,
            tin_hash,
            tin_last4,
            branch_code,
            actor_user_id,
            occurred_at,
        } => register_spec(
            p,
            profile_id,
            account_id,
            holder,
            facts,
            display_name,
            tin_hash,
            tin_last4,
            branch_code,
            actor_user_id,
            occurred_at,
        ),
        CommandModel::UpdateTaxProfileIdentity {
            display_name,
            facts,
            expected_updated_at,
            actor_user_id,
            occurred_at,
        } => update_identity_spec(
            p,
            display_name,
            facts,
            expected_updated_at,
            actor_user_id,
            occurred_at,
        ),
        CommandModel::ArchiveTaxProfile { actor_user_id, occurred_at } => archive_spec(
            p,
            actor_user_id,
            occurred_at,
        ),
        CommandModel::RestoreTaxProfile { actor_user_id, occurred_at } => restore_spec(
            p,
            actor_user_id,
            occurred_at,
        ),
        CommandModel::Claim { claimant, actor_user_id, identity_hash, proof_method } => claim_spec(
            p,
            claimant,
            actor_user_id,
            identity_hash,
            proof_method,
        ),
        CommandModel::Reclaim { actor_user_id, identity_hash, proof_method } => reclaim_spec(
            p,
            actor_user_id,
            identity_hash,
            proof_method,
        ),
        CommandModel::Transfer { new_holder, actor_user_id } => transfer_spec(
            p,
            new_holder,
            actor_user_id,
        ),
    }
}

/// The state after one event.
pub open spec fn apply_spec(p: ProfileModel, e: EventModel) -> ProfileModel {
    match e {
        EventModel::TaxProfileRegistered {
            profile_id,
            account_id,
            tin_hash,
            tin_last4,
            branch_code,
            display_name,
            holder,
            ownership,
            verification,
            facts,
            actor_user_id,
            occurred_at,
        } => ProfileModel {
            exists: true,
            profile_id: Some(profile_id),
            identity_hash: Some(tin_hash),
            tin_last4: Some(tin_last4),
            branch_code: Some(
                if is_blank(branch_code) {
                    BranchCode::HEAD_OFFICE@
                } else {
                    branch_code
                },
            ),
            account_id: Some(
                if is_blank(account_id) {
                    match holder {
                        HolderModel::Personal(user_id) => user_id,
                        HolderModel::Organization(_) => actor_user_id,
                    }
                } else {
                    account_id
                },
            ),
            display_name: Some(display_name),
            holder: Some(holder),
            ownership: Some(ownership),
            verification,
            facts: Some(facts),
            is_archived: false,
            updated_at: Some(occurred_at),
            ..p
        },
        EventModel::Claimed { holder, ownership, verification, verified_owner_user_id, .. } =>
            ProfileModel {
            holder: Some(holder),
            ownership: Some(ownership),
            verification,
            verified_owner_user_id: Some(verified_owner_user_id),
            ..p
        },
        EventModel::Reclaimed { holder, ownership, verification, verified_owner_user_id, .. } =>
            ProfileModel {
            holder: Some(holder),
            ownership: Some(ownership),
            verification,
            verified_owner_user_id: Some(verified_owner_user_id),
            ..p
        },
        EventModel::Transferred { holder, ownership, .. } => ProfileModel {
            holder: Some(holder),
            ownership: Some(ownership),
            ..p
        },
        EventModel::TaxProfileIdentityUpdated { display_name, facts, occurred_at, .. } =>
            ProfileModel {
            display_name: Some(display_name),
            facts: Some(facts),
            updated_at: Some(occurred_at),
            ..p
        },
        EventModel::TaxProfileArchived { occurred_at, .. } => ProfileModel {
            is_archived: true,
            updated_at: Some(occurred_at),
            ..p
        },
        EventModel::TaxProfileRestored { occurred_at, .. } => ProfileModel {
            is_archived: false,
            updated_at: Some(occurred_at),
            ..p
        },
    }
}

impl Default for TaxProfile {
    fn default() -> (p: Self)
        ensures
            p@ == initial_profile(),
    {
        TaxProfile {
            exists: false,
            profile_id: None,
            account_id: None,
            identity_hash: None,
            tin_last4: None,
            branch_code: None,
            display_name: None,
            holder: None,
            ownership: None,
            verification: VerificationStatus::Unverified,
            facts: None,
            verified_owner_user_id: None,
            is_archived: false,
            updated_at: None,
        }
    }
}

fn opt_str_eq(o: &Option<String>, s: &str) -> (b: bool)
    ensures
        b == (o.deep_view() == Some(s@)),
{
    match o {
        Some(x) => str_eq(x.as_str(), s),
        None => false,
    }
}

fn all_digits_exec(s: &str) -> (b: bool)
    ensures
        b == all_digits(s@),
{
    let v = chars_of(s);
    let mut i: usize = 0;
    while i < v.len()
        invariant
            v@ == s@,
            i <= v@.len(),
            forall|j: int| 0 <= j < i ==> crate::text::is_digit(#[trigger] v@[j]),
        decreases v.len() - i,
    {
        if !is_digit_exec(v[i]) {
            return false;
        }
        i = i + 1;
    }
    true
}

fn ownership_for_exec(h: &AccountHolder) -> (o: OwnershipStatus)
    ensures
        o == ownership_for(h@),
{
    match h {
        AccountHolder::Personal { .. } => OwnershipStatus::PersonalExclusive,
        AccountHolder::Organization { .. } => OwnershipStatus::CompanyManaged,
    }
}

impl TaxProfile {
    pub fn new() -> (p: Self)
        ensures
            p@ == initial_profile(),
    {
        Self::default()
    }

    /// How the desktop app should treat this row for `actor_user_id`.
    pub fn claim_status_for(&self, actor_user_id: &str) -> (s: ClaimStatus)
        ensures
            s == claim_status_spec(self@, actor_user_id@),
    {
        match &self.holder {
            Some(AccountHolder::Personal { user_id }) => {
                if str_eq(user_id.as_str(), actor_user_id) {
                    ClaimStatus::Owned
                } else {
                    ClaimStatus::ReadOnly
                }
            },
            Some(AccountHolder::Organization { .. }) => {
                if opt_str_eq(&self.verified_owner_user_id, actor_user_id) {
                    ClaimStatus::ReadOnly
                } else {
                    ClaimStatus::PendingClaim
                }
            },
            None => ClaimStatus::ReadOnly,
        }
    }

    /// The personal holder, or the verified owner behind an organization.
    pub fn owner_user_id(&self) -> (o: Option<String>)
        ensures
            o.deep_view() == owner_user_id_spec(self@),
    {
        match &self.holder {
            Some(AccountHolder::Personal { user_id }) => Some(user_id.clone()),
            Some(AccountHolder::Organization { .. }) => clone_opt_string(
                &self.verified_owner_user_id,
            ),
            None => None,
        }
    }

    /// The holding organization, if any.
    pub fn org_id(&self) -> (o: Option<String>)
        ensures
            o.deep_view() == org_id_spec(self@),
    {
        match &self.holder {
            Some(AccountHolder::Organization { organization_id }) => Some(
                organization_id.clone(),
            ),
            _ => None,
        }
    }

    /// Decides a command against this state. Never mutates.
    pub fn handle(&self, command: TaxProfileCommand) -> (res: Result<
        Vec<TaxProfileEvent>,
        TaxProfileError,
    >)
        requires
            well_formed(self@),
        ensures
            outcome(res) == handle_spec(self@, command@),
    {
        match command {
            TaxProfileCommand::RegisterTaxProfile {
                profile_id,
                account_id,
                holder,
                facts,
                display_name,
                tin_hash,
                tin_last4,
                branch_code,
                actor_user_id,
                occurred_at,
            } => self.handle_register(
                profile_id,
                account_id,
                holder,
                facts,
                display_name,
                tin_hash,
                tin_last4,
                branch_code,
                actor_user_id,
                occurred_at,
            ),
            TaxProfileCommand::UpdateTaxProfileIdentity {
                display_name,
                facts,
                expected_updated_at,
                actor_user_id,
                occurred_at,
            } => self.handle_update_identity(
                display_name,
                facts,
                expected_updated_at,
                actor_user_id,
                occurred_at,
            ),
            TaxProfileCommand::ArchiveTaxProfile { actor_user_id, occurred_at } => self.handle_archive(
                actor_user_id,
                occurred_at,
            ),
            TaxProfileCommand::RestoreTaxProfile { actor_user_id, occurred_at } => self.handle_restore(
                actor_user_id,
                occurred_at,
            ),
            TaxProfileCommand::Claim { claimant, actor_user_id, identity_hash, proof_method } =>
                self.handle_claim(claimant, actor_user_id, identity_hash, proof_method),
            TaxProfileCommand::Reclaim { actor_user_id, identity_hash, proof_method } =>
                self.handle_reclaim(actor_user_id, identity_hash, proof_method),
            TaxProfileCommand::Transfer { new_holder, actor_user_id } => self.handle_transfer(
                new_holder,
                actor_user_id,
            ),
        }
    }

    fn handle_register(
        &self,
        profile_id: String,
        account_id: String,
        holder: AccountHolder,
        facts: CloudTaxProfileFacts,
        display_name: String,
        tin_hash: TinIdentityHash,
        tin_last4: String,
        branch_code: String,
        actor_user_id: String,
        occurred_at: String,
    ) -> (res: Result<Vec<TaxProfileEvent>, TaxProfileError>)
        requires
            well_formed(self@),
        ensures
            outcome(res) == register_spec(
                self@,
                profile_id@,
                account_id@,
                holder@,
                facts@,
                display_name@,
                tin_hash@,
                tin_last4@,
                branch_code@,
                actor_user_id@,
                occurred_at@,
            ),
    {
        facts.validate()?;
        if self.exists {
            let holder = self.holder.as_ref().unwrap().clone();
            return Err(TaxProfileError::AlreadyHeld { holder });
        }
        if is_blank_str(profile_id.as_str()) {
            return Err(invalid_facts("profile id is required"));
        }
        if is_blank_str(account_id.as_str()) {
            return Err(invalid_facts("account_id is required"));
        }
        if !(chars_of(tin_last4.as_str()).len() == 4 && all_digits_exec(tin_last4.as_str())) {
            return Err(invalid_facts("tin_last4 is invalid"));
        }
        let branch = match BranchCode::parse(branch_code.as_str()) {
            Ok(branch) => branch,
            Err(reason) => {
                return Err(TaxProfileError::InvalidFacts { reason });
            },
        };
        let display_name = if is_blank_str(display_name.as_str()) {
            facts.registered_name.clone()
        } else {
            trim_str(display_name.as_str())
        };
        let ownership = ownership_for_exec(&holder);
        Ok(
            single(
                TaxProfileEvent::TaxProfileRegistered {
                    profile_id,
                    account_id,
                    tin_hash,
                    tin_last4,
                    branch_code: owned(branch.as_str()),
                    display_name,
                    holder,
                    ownership,
                    verification: VerificationStatus::Unverified,
                    facts,
                    actor_user_id,
                    occurred_at,
                },
            ),
        )
    }

    fn require_identity(&self, identity_hash: &TinIdentityHash) -> (res: Result<(), TaxProfileError>)
        ensures
            match identity_error(self@, identity_hash@) {
                None => res is Ok,
                Some(e) => res matches Err(x) && x@ == e,
            },
    {
        match &self.identity_hash {
            Some(current) => {
                if current.0 == identity_hash.0 {
                    Ok(())
                } else {
                    Err(TaxProfileError::ProofMismatch)
                }
            },
            None => Err(TaxProfileError::NotFound),
        }
    }

    fn require_account(&self, actor_user_id: &str) -> (res: Result<(), TaxProfileError>)
        ensures
            res is Ok <==> self@.account_id == Some(actor_user_id@),
            res matches Err(e) ==> e@ == ErrorModel::NotHolder,
    {
        if opt_str_eq(&self.account_id, actor_user_id) {
            Ok(())
        } else {
            Err(TaxProfileError::NotHolder)
        }
    }

    fn handle_claim(
        &self,
        claimant: AccountHolder,
        actor_user_id: String,
        identity_hash: TinIdentityHash,
        proof_method: ProofMethod,
    ) -> (res: Result<Vec<TaxProfileEvent>, TaxProfileError>)
        ensures
            outcome(res) == claim_spec(
                self@,
                claimant@,
                actor_user_id@,
                identity_hash@,
                proof_method,
            ),
    {
        if !self.exists {
            return Err(TaxProfileError::NotFound);
        }
        self.require_identity(&identity_hash)?;
        match self.ownership {
            Some(OwnershipStatus::CompanyManaged) => {},
            _ => {
                return Err(TaxProfileError::ClaimRequiresCompanyHold);
            },
        }
        if !claimant.is_personal() || !str_eq(claimant.id(), actor_user_id.as_str()) {
            return Err(invalid_facts("only a personal account can claim as the real owner"));
        }
        let verified_owner_user_id = actor_user_id.clone();
        Ok(
            single(
                TaxProfileEvent::Claimed {
                    holder: claimant,
                    ownership: OwnershipStatus::PersonalExclusive,
                    verification: VerificationStatus::Verified,
                    verified_owner_user_id,
                    proof_method,
                    actor_user_id,
                },
            ),
        )
    }

    fn handle_reclaim(
        &self,
        actor_user_id: String,
        identity_hash: TinIdentityHash,
        proof_method: ProofMethod,
    ) -> (res: Result<Vec<TaxProfileEvent>, TaxProfileError>)
        ensures
            outcome(res) == reclaim_spec(self@, actor_user_id@, identity_hash@, proof_method),
    {
        if !self.exists {
            return Err(TaxProfileError::NotFound);
        }
        self.require_identity(&identity_hash)?;
        let is_recorded_owner = opt_str_eq(&self.verified_owner_user_id, actor_user_id.as_str());
        let personal_holder_is_actor = match &self.holder {
            Some(AccountHolder::Personal { user_id }) => str_eq(
                user_id.as_str(),
                actor_user_id.as_str(),
            ),
            _ => false,
        };
        if personal_holder_is_actor {
            return Err(invalid_facts("caller already holds exclusive control"));
        }
        let proof_accepted = match proof_method {
            ProofMethod::FakeOrus | ProofMethod::Orus => true,
        };
        if !is_recorded_owner && !proof_accepted {
            return Err(TaxProfileError::ReclaimDenied);
        }
        let holder = AccountHolder::Personal { user_id: actor_user_id.clone() };
        let verified_owner_user_id = actor_user_id.clone();
        Ok(
            single(
                TaxProfileEvent::Reclaimed {
                    holder,
                    ownership: OwnershipStatus::PersonalExclusive,
                    verification: VerificationStatus::Verified,
                    verified_owner_user_id,
                    proof_method,
                    actor_user_id,
                },
            ),
        )
    }

    fn handle_transfer(&self, new_holder: AccountHolder, actor_user_id: String) -> (res: Result<
        Vec<TaxProfileEvent>,
        TaxProfileError,
    >)
        ensures
            outcome(res) == transfer_spec(self@, new_holder@, actor_user_id@),
    {
        if !self.exists {
            return Err(TaxProfileError::NotFound);
        }
        let current = match &self.holder {
            Some(current) => current,
            None => {
                return Err(TaxProfileError::NotFound);
            },
        };
        let actor_is_holder = match current {
            AccountHolder::Personal { user_id } => str_eq(user_id.as_str(), actor_user_id.as_str()),
            AccountHolder::Organization { .. } => true,
        };
        if !actor_is_holder {
            return Err(TaxProfileError::NotHolder);
        }
        if current.same_as(&new_holder) {
            return Err(invalid_facts("new holder must be different"));
        }
        let ownership = ownership_for_exec(&new_holder);
        Ok(single(TaxProfileEvent::Transferred { holder: new_holder, ownership, actor_user_id }))
    }

    fn handle_update_identity(
        &self,
        display_name: Option<String>,
        facts: Option<CloudTaxProfileFacts>,
        expected_updated_at: Option<String>,
        actor_user_id: String,
        occurred_at: String,
    ) -> (res: Result<Vec<TaxProfileEvent>, TaxProfileError>)
        ensures
            outcome(res) == update_identity_spec(
                self@,
                display_name.deep_view(),
                opt_facts_view(facts),
                expected_updated_at.deep_view(),
                actor_user_id@,
                occurred_at@,
            ),
    {
        if !self.exists {
            return Err(TaxProfileError::NotFound);
        }
        self.require_account(actor_user_id.as_str())?;
        if self.is_archived {
            return Err(TaxProfileError::AlreadyArchived);
        }
        if let Some(expected) = &expected_updated_at {
            if !opt_str_eq(&self.updated_at, expected.as_str()) {
                return Err(TaxProfileError::StaleWrite);
            }
        }
        let next_facts = match facts {
            Some(facts) => {
                facts.validate()?;
                facts
            },
            None => match &self.facts {
                Some(current) => current.clone(),
                None => {
                    return Err(TaxProfileError::NotFound);
                },
            },
        };
        let next_name = match &display_name {
            Some(value) if !is_blank_str(value.as_str()) => trim_str(value.as_str()),
            _ => match &self.display_name {
                Some(current) => current.clone(),
                None => next_facts.registered_name.clone(),
            },
        };
        Ok(
            single(
                TaxProfileEvent::TaxProfileIdentityUpdated {
                    display_name: next_name,
                    facts: next_facts,
                    actor_user_id,
                    occurred_at,
                },
            ),
        )
    }

    fn handle_archive(&self, actor_user_id: String, occurred_at: String) -> (res: Result<
        Vec<TaxProfileEvent>,
        TaxProfileError,
    >)
        ensures
            outcome(res) == archive_spec(self@, actor_user_id@, occurred_at@),
    {
        if !self.exists {
            return Err(TaxProfileError::NotFound);
        }
        self.require_account(actor_user_id.as_str())?;
        if self.is_archived {
            return Err(TaxProfileError::AlreadyArchived);
        }
        Ok(single(TaxProfileEvent::TaxProfileArchived { actor_user_id, occurred_at }))
    }

    fn handle_restore(&self, actor_user_id: String, occurred_at: String) -> (res: Result<
        Vec<TaxProfileEvent>,
        TaxProfileError,
    >)
        ensures
            outcome(res) == restore_spec(self@, actor_user_id@, occurred_at@),
    {
        if !self.exists {
            return Err(TaxProfileError::NotFound);
        }
        self.require_account(actor_user_id.as_str())?;
        if !self.is_archived {
            return Err(TaxProfileError::NotArchived);
        }
        Ok(single(TaxProfileEvent::TaxProfileRestored { actor_user_id, occurred_at }))
    }

    /// Folds one event into the state.
    pub fn apply(&mut self, event: &TaxProfileEvent)
        ensures
            final(self)@ == apply_spec(old(self)@, event@),
    {
        match event {
            TaxProfileEvent::TaxProfileRegistered {
                profile_id,
                account_id,
                tin_hash,
                tin_last4,
                branch_code,
                display_name,
                holder,
                ownership,
                verification,
                facts,
                actor_user_id,
                occurred_at,
            } => {
                self.exists = true;
                self.profile_id = Some(profile_id.clone());
                self.identity_hash = Some(tin_hash.clone());
                self.tin_last4 = Some(tin_last4.clone());
                self.branch_code = Some(
                    if is_blank_str(branch_code.as_str()) {
                        owned(BranchCode::HEAD_OFFICE)
                    } else {
                        branch_code.clone()
                    },
                );
                self.account_id = Some(
                    if is_blank_str(account_id.as_str()) {
                        match holder {
                            AccountHolder::Personal { user_id } => user_id.clone(),
                            AccountHolder::Organization { .. } => actor_user_id.clone(),
                        }
                    } else {
                        account_id.clone()
                    },
                );
                self.display_name = Some(display_name.clone());
                self.holder = Some(holder.clone());
                self.ownership = Some(*ownership);
                self.verification = *verification;
                self.facts = Some(facts.clone());
                self.is_archived = false;
                self.updated_at = Some(occurred_at.clone());
            },
            TaxProfileEvent::Claimed { holder, ownership, verification, verified_owner_user_id, .. }
            | TaxProfileEvent::Reclaimed {
                holder,
                ownership,
                verification,
                verified_owner_user_id,
                ..
            } => {
                self.holder = Some(holder.clone());
                self.ownership = Some(*ownership);
                self.verification = *verification;
                self.verified_owner_user_id = Some(verified_owner_user_id.clone());
            },
            TaxProfileEvent::Transferred { holder, ownership, .. } => {
                self.holder = Some(holder.clone());
                self.ownership = Some(*ownership);
            },
            TaxProfileEvent::TaxProfileIdentityUpdated { display_name, facts, occurred_at, .. } => {
                self.display_name = Some(display_name.clone());
                self.facts = Some(facts.clone());
                self.updated_at = Some(occurred_at.clone());
            },
            TaxProfileEvent::TaxProfileArchived { occurred_at, .. } => {
                self.is_archived = true;
                self.updated_at = Some(occurred_at.clone());
            },
            TaxProfileEvent::TaxProfileRestored { occurred_at, .. } => {
                self.is_archived = false;
                self.updated_at = Some(occurred_at.clone());
            },
        }
    }
}


/// A nonempty run of lowercase ASCII letters and underscores is its own parse key.
proof fn lemma_lowercase_key(s: Seq<char>)
    requires
        s.len() > 0,
        forall|i: int| 0 <= i < s.len() ==> ('a' <= #[trigger] s[i] && s[i] <= 'z') || s[i] == '_',
    ensures
        parse_key(s) == s,
{
    lemma_trim_unchanged(s);
    assert(to_lower(s) =~= s);
}

/// Parsing a taxpayer type's name gives that type back.
pub proof fn lemma_taxpayer_type_round_trip(t: TaxpayerType)
    ensures
        taxpayer_type_from(parse_key(taxpayer_type_name(t))) == Some(t),
{
    reveal_strlit("individual");
    reveal_strlit("corporation");
    reveal_strlit("partnership");
    reveal_strlit("cooperative");
    reveal_strlit("estate");
    reveal_strlit("trust");
    match t {
        TaxpayerType::Individual => {
            reveal_strlit("individual");
            lemma_lowercase_key(taxpayer_type_name(t));
        },
        TaxpayerType::Corporation => {
            reveal_strlit("corporation");
            lemma_lowercase_key(taxpayer_type_name(t));
        },
        TaxpayerType::Partnership => {
            reveal_strlit("partnership");
            lemma_lowercase_key(taxpayer_type_name(t));
        },
        TaxpayerType::Cooperative => {
            reveal_strlit("cooperative");
            lemma_lowercase_key(taxpayer_type_name(t));
        },
        TaxpayerType::Estate => {
            reveal_strlit("estate");
            lemma_lowercase_key(taxpayer_type_name(t));
        },
        TaxpayerType::Trust => {
            reveal_strlit("trust");
            lemma_lowercase_key(taxpayer_type_name(t));
        },
    }
}

} // verus!
