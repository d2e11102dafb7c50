//! Named read models. Application services map HTTP/server-fn reads onto
//! these query names. A query is never keyed by a raw TIN.

use vstd::prelude::*;

verus! {

#[derive(Debug, PartialEq, Eq)]
pub enum TaxProfileQuery {
    GetTaxProfile { tax_profile_id: String },
    ListTaxProfilesForAccount { account_id: String },
    GetProfileYear { profile_year_id: String },
    ListYearForms { profile_year_id: String },
    GetFormDraft { form_draft_id: String },
    ListDraftsForYear { tax_profile_id: String, tax_year: i16 },
    ListFilings { tax_profile_id: String, tax_year: Option<i16> },
    GetFilingByPeriod { tax_profile_id: String, form_code: String, period_key: String },
}

/// The read-model name of a query.
pub open spec fn query_name(q: TaxProfileQuery) -> Seq<char> {
    match q {
        TaxProfileQuery::GetTaxProfile { .. } => "GetTaxProfile"@,
        TaxProfileQuery::ListTaxProfilesForAccount { .. } => "ListTaxProfilesForAccount"@,
        TaxProfileQuery::GetProfileYear { .. } => "GetProfileYear"@,
        TaxProfileQuery::ListYearForms { .. } => "ListYearForms"@,
        TaxProfileQuery::GetFormDraft { .. } => "GetFormDraft"@,
        TaxProfileQuery::ListDraftsForYear { .. } => "ListDraftsForYear"@,
        TaxProfileQuery::ListFilings { .. } => "ListFilings"@,
        TaxProfileQuery::GetFilingByPeriod { .. } => "GetFilingByPeriod"@,
    }
}

impl TaxProfileQuery {
    pub fn name(&self) -> (s: &'static str)
        ensures
            s@ == query_name(*self),
    {
        match self {
            TaxProfileQuery::GetTaxProfile { .. } => "GetTaxProfile",
            TaxProfileQuery::ListTaxProfilesForAccount { .. } => "ListTaxProfilesForAccount",
            TaxProfileQuery::GetProfileYear { .. } => "GetProfileYear",
            TaxProfileQuery::ListYearForms { .. } => "ListYearForms",
            TaxProfileQuery::GetFormDraft { .. } => "GetFormDraft",
            TaxProfileQuery::ListDraftsForYear { .. } => "ListDraftsForYear",
            TaxProfileQuery::ListFilings { .. } => "ListFilings",
            TaxProfileQuery::GetFilingByPeriod { .. } => "GetFilingByPeriod",
        }
    }
}

} // verus!
