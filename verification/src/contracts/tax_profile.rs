//! Tax profile wire contracts, and the helpers that shape profiles for display:
//! the BIR form catalog, masked TIN labels, the year picker and grouping by TIN.

use vstd::prelude::*;
use crate::text::{
    chars_of, digits_chars, digits_of, is_blank, is_blank_str, lower_chars, owned,
    to_lower, trim, trim_chars, push_char, str_eq, eq_ignore_ascii_case,
};

verus! {

#[derive(Clone, Debug, PartialEq, Eq)]
pub struct TaxProfileView {
    pub id: String,
    pub profile_id: String,
    pub owner_user_id: Option<String>,
    pub org_id: Option<String>,
    pub tin_last4: String,
    pub display_name: String,
    pub claim_status: String,
    pub full_name: String,
    pub rdo_code: String,
    pub address: String,
    pub line_of_business: String,
    pub zip_code: String,
    pub phone: String,
    pub email: String,
    pub taxpayer_type: String,
    pub tax_classification: Option<String>,
    pub is_vat_registered: bool,
    pub holder_kind: String,
    pub ownership_status: String,
    pub verification_status: String,
    pub verified_owner_user_id: Option<String>,
    pub account_id: Option<String>,
    pub branch_code: String,
    pub is_archived: bool,
    pub revision: u64,
    pub created_at: Option<String>,
    pub updated_at: Option<String>,
}

#[derive(Clone, Debug, PartialEq, Eq)]
pub struct TaxProfileListResponse {
    pub profiles: Vec<TaxProfileView>,
}

#[derive(Clone, Debug, PartialEq, Eq)]
pub struct TaxProfileCreateRequest {
    /// Attested at create time only. Never stored as a primary key.
    pub tin_root: String,
    pub branch_code: String,
    pub display_name: Option<String>,
    pub registered_name: String,
    pub rdo_code: String,
    pub line_of_business: String,
    pub registered_address: String,
    pub zip_code: String,
    pub phone: String,
    pub email: String,
    pub taxpayer_type: String,
    pub tax_classification: Option<String>,
    pub is_vat_registered: bool,
    pub business_start_date: Option<String>,
    /// When set, the profile is held by this organization (company-managed).
    pub organization_id: Option<String>,
    pub org_id: Option<String>,
}

#[derive(Clone, Debug, PartialEq, Eq)]
pub struct TaxProfilePatchRequest {
    pub display_name: Option<String>,
    pub registered_name: Option<String>,
    pub rdo_code: Option<String>,
    pub line_of_business: Option<String>,
    pub registered_address: Option<String>,
    pub zip_code: Option<String>,
    pub phone: Option<String>,
    pub email: Option<String>,
    pub taxpayer_type: Option<String>,
    pub tax_classification: Option<String>,
    pub is_vat_registered: Option<bool>,
    pub business_start_date: Option<String>,
    /// Last `updated_at` the client observed. Required for multi-device LWW.
    pub updated_at: Option<String>,
    /// If present, must hash to this row's identity. Never used to rewrite TIN.
    pub tin_root: Option<String>,
    pub branch_code: Option<String>,
}

#[derive(Clone, Debug, PartialEq, Eq)]
pub struct TaxProfileClaimRequest {
    pub tin_root: String,
    pub branch_code: String,
    pub expected_revision: Option<u64>,
}

#[derive(Clone, Debug, PartialEq, Eq)]
pub struct TaxProfileTransferRequest {
    pub id: String,
    pub organization_id: String,
    pub expected_revision: Option<u64>,
}

#[derive(Clone, Debug, PartialEq, Eq)]
pub struct MeOrg {
    pub org_id: String,
    pub name: String,
    pub slug: String,
    pub role: String,
}

#[derive(Clone, Debug, PartialEq, Eq)]
pub struct MeResponse {
    pub user_id: String,
    pub email: Option<String>,
    pub orgs: Vec<MeOrg>,
}

#[derive(Clone, Debug, PartialEq, Eq)]
pub struct YearFormView {
    pub form_code: String,
    pub frequency: String,
    pub active: bool,
}

#[derive(Clone, Debug, PartialEq, Eq)]
pub struct ProfileYearView {
    pub id: String,
    pub tax_profile_id: String,
    pub tax_year: i16,
    pub registered_name: Option<String>,
    pub rdo_code: Option<String>,
    pub line_of_business: Option<String>,
    pub registered_address: Option<String>,
    pub zip_code: Option<String>,
    pub phone: Option<String>,
    pub email: Option<String>,
    pub tax_classification: Option<String>,
    pub is_vat_registered: Option<bool>,
    pub forms: Vec<YearFormView>,
}

#[derive(Clone, Debug, PartialEq, Eq)]
pub struct TaxProfileTinGroup {
    pub tin_last4: String,
    pub display_name: String,
    pub holder_kind: String,
    pub branches: Vec<TaxProfileView>,
}

#[derive(Clone, Debug, PartialEq, Eq)]
pub struct ProfileYearListResponse {
    pub tax_profile_id: String,
    pub years: Vec<i16>,
}

#[derive(Clone, Debug, PartialEq, Eq)]
pub struct SaveProfileYearRequest {
    pub tax_year: i16,
    pub registered_name: Option<String>,
    pub rdo_code: Option<String>,
    pub line_of_business: Option<String>,
    pub registered_address: Option<String>,
    pub zip_code: Option<String>,
    pub phone: Option<String>,
    pub email: Option<String>,
    pub taxpayer_type: Option<String>,
    pub tax_classification: Option<String>,
    pub is_vat_registered: Option<bool>,
    pub business_start_date: Option<String>,
    pub display_name: Option<String>,
    pub updated_at: Option<String>,
}

#[derive(Clone, Debug, PartialEq, Eq)]
pub struct SetYearFormsRequest {
    pub tax_year: i16,
    pub form_codes: Vec<String>,
}

#[derive(Clone, Debug, PartialEq, Eq)]
pub struct CloneProfileYearRequest {
    pub from_year: i16,
    pub to_year: i16,
}

/// One entry of the searchable BIR form catalog used by the yearly attachment picker.
#[derive(Clone, Copy, Debug)]
pub struct BirFormSpec {
    pub code: &'static str,
    pub title: &'static str,
    pub frequency: &'static str,
}

/// The BIR form catalog as (code, title, frequency) triples, in catalog order.
pub open spec fn bir_catalog() -> Seq<(Seq<char>, Seq<char>, Seq<char>)> {
    seq![
        ("0605"@, "Payment form"@, "on_demand"@),
        ("1905"@, "Update of exemption / registration"@, "on_demand"@),
        ("1600"@, "Withholding on government money payments"@, "monthly"@),
        ("1600PT"@, "Withholding on government money payments — PT"@, "monthly"@),
        ("1600VT"@, "Withholding on government money payments — VAT"@, "monthly"@),
        ("1600WP"@, "Withholding on government money payments — WP"@, "monthly"@),
        ("1601C"@, "Withholding on compensation"@, "monthly"@),
        ("1601E"@, "Withholding on expanded income"@, "monthly"@),
        ("1601F"@, "Withholding on final income"@, "monthly"@),
        ("1601EQ"@, "Quarterly expanded withholding"@, "quarterly"@),
        ("1601FQ"@, "Quarterly final withholding"@, "quarterly"@),
        ("1604C"@, "Annual compensation withholding"@, "annual"@),
        ("1604E"@, "Annual expanded withholding"@, "annual"@),
        ("1604F"@, "Annual final withholding"@, "annual"@),
        ("1701"@, "Annual income tax — individuals"@, "annual"@),
        ("1701A"@, "Annual income tax — individuals (optional)"@, "annual"@),
        ("1701Q"@, "Quarterly income tax — individuals"@, "quarterly"@),
        ("1702RT"@, "Annual income tax — corporations (regular)"@, "annual"@),
        ("1702EX"@, "Annual income tax — corporations (exempt)"@, "annual"@),
        ("1702MX"@, "Annual income tax — corporations (mixed)"@, "annual"@),
        ("1702Q"@, "Quarterly income tax — corporations"@, "quarterly"@),
        ("2550M"@, "Monthly VAT declaration"@, "monthly"@),
        ("2550Q"@, "Quarterly VAT declaration"@, "quarterly"@),
        ("2551Q"@, "Quarterly percentage tax"@, "quarterly"@),
        ("2307"@, "Certificate of creditable tax withheld"@, "on_demand"@),
        ("2316"@, "Certificate of compensation payment/tax withheld"@, "annual"@)
    ]
}

pub open spec fn form_entry(f: BirFormSpec) -> (Seq<char>, Seq<char>, Seq<char>) {
    (f.code@, f.title@, f.frequency@)
}

/// The searchable BIR form catalog for the yearly attachment picker.
pub fn bir_form_catalog() -> (forms: Vec<BirFormSpec>)
    ensures
        forms@.len() == bir_catalog().len(),
        forall|i: int| 0 <= i < forms@.len() ==> form_entry(#[trigger] forms@[i]) == bir_catalog()[i],
{
    let forms = vec![
        BirFormSpec { code: "0605", title: "Payment form", frequency: "on_demand" },
        BirFormSpec { code: "1905", title: "Update of exemption / registration", frequency: "on_demand" },
        BirFormSpec { code: "1600", title: "Withholding on government money payments", frequency: "monthly" },
        BirFormSpec { code: "1600PT", title: "Withholding on government money payments — PT", frequency: "monthly" },
        BirFormSpec { code: "1600VT", title: "Withholding on government money payments — VAT", frequency: "monthly" },
        BirFormSpec { code: "1600WP", title: "Withholding on government money payments — WP", frequency: "monthly" },
        BirFormSpec { code: "1601C", title: "Withholding on compensation", frequency: "monthly" },
        BirFormSpec { code: "1601E", title: "Withholding on expanded income", frequency: "monthly" },
        BirFormSpec { code: "1601F", title: "Withholding on final income", frequency: "monthly" },
        BirFormSpec { code: "1601EQ", title: "Quarterly expanded withholding", frequency: "quarterly" },
        BirFormSpec { code: "1601FQ", title: "Quarterly final withholding", frequency: "quarterly" },
        BirFormSpec { code: "1604C", title: "Annual compensation withholding", frequency: "annual" },
        BirFormSpec { code: "1604E", title: "Annual expanded withholding", frequency: "annual" },
        BirFormSpec { code: "1604F", title: "Annual final withholding", frequency: "annual" },
        BirFormSpec { code: "1701", title: "Annual income tax — individuals", frequency: "annual" },
        BirFormSpec { code: "1701A", title: "Annual income tax — individuals (optional)", frequency: "annual" },
        BirFormSpec { code: "1701Q", title: "Quarterly income tax — individuals", frequency: "quarterly" },
        BirFormSpec { code: "1702RT", title: "Annual income tax — corporations (regular)", frequency: "annual" },
        BirFormSpec { code: "1702EX", title: "Annual income tax — corporations (exempt)", frequency: "annual" },
        BirFormSpec { code: "1702MX", title: "Annual income tax — corporations (mixed)", frequency: "annual" },
        BirFormSpec { code: "1702Q", title: "Quarterly income tax — corporations", frequency: "quarterly" },
        BirFormSpec { code: "2550M", title: "Monthly VAT declaration", frequency: "monthly" },
        BirFormSpec { code: "2550Q", title: "Quarterly VAT declaration", frequency: "quarterly" },
        BirFormSpec { code: "2551Q", title: "Quarterly percentage tax", frequency: "quarterly" },
        BirFormSpec { code: "2307", title: "Certificate of creditable tax withheld", frequency: "on_demand" },
        BirFormSpec { code: "2316", title: "Certificate of compensation payment/tax withheld", frequency: "annual" }
    ];
    assert(forms@.len() == bir_catalog().len());
    forms
}

/// The frequency of the first catalog entry at or after `i` whose code matches `needle`
/// without regard to ASCII case; `annual` when none does.
pub open spec fn frequency_from(
    entries: Seq<(Seq<char>, Seq<char>, Seq<char>)>,
    needle: Seq<char>,
    i: int,
) -> Seq<char>
    decreases entries.len() - i,
{
    if i < 0 || i >= entries.len() {
        "annual"@
    } else if eq_ignore_ascii_case(entries[i].0, needle) {
        entries[i].2
    } else {
        frequency_from(entries, needle, i + 1)
    }
}

/// The filing frequency of a BIR form code (`annual` for unknown codes).
pub open spec fn form_frequency(code: Seq<char>) -> Seq<char> {
    frequency_from(bir_catalog(), trim(code), 0)
}

fn seq_eq_chars(a: &Vec<char>, b: &Vec<char>) -> (eq: bool)
    ensures
        eq == (a@ == b@),
{
    if a.len() != b.len() {
        return false;
    }
    let mut i: usize = 0;
    while i < a.len()
        invariant
            a@.len() == b@.len(),
            i <= a@.len(),
            forall|j: int| 0 <= j < i ==> a@[j] == b@[j],
        decreases a.len() - i,
    {
        if a[i] != b[i] {
            return false;
        }
        i = i + 1;
    }
    assert(a@ =~= b@);
    true
}

/// The filing frequency of a BIR form: the catalog entry whose code matches the trimmed
/// `code` without regard to ASCII case, else `annual`.
pub fn bir_form_frequency(code: &str) -> (frequency: &'static str)
    ensures
        frequency@ == form_frequency(code@),
{
    let needle = trim_chars(code);
    let needle_lower = lower_chars(&needle);
    let forms = bir_form_catalog();
    let mut i: usize = 0;
    while i < forms.len()
        invariant
            forms@.len() == bir_catalog().len(),
            forall|k: int| 0 <= k < forms@.len() ==> form_entry(#[trigger] forms@[k]) == bir_catalog()[k],
            needle@ == trim(code@),
            needle_lower@ == to_lower(needle@),
            i <= forms@.len(),
            frequency_from(bir_catalog(), needle@, 0) == frequency_from(bir_catalog(), needle@, i as int),
        decreases forms.len() - i,
    {
        let entry = forms[i];
        let code_chars = chars_of(entry.code);
        let code_lower = lower_chars(&code_chars);
        assert(form_entry(forms@[i as int]) == bir_catalog()[i as int]);
        if seq_eq_chars(&code_lower, &needle_lower) {
            return entry.frequency;
        }
        i = i + 1;
    }
    "annual"
}


/// The last four digits shown on a masked TIN: the final four ASCII digits of `raw`,
/// all of them when there are fewer, or four bullets when there are none.
pub open spec fn masked_last4(raw: Seq<char>) -> Seq<char> {
    let d = digits_of(raw);
    if d.len() >= 4 {
        d.subrange(d.len() - 4, d.len() as int)
    } else if d.len() == 0 {
        "••••"@
    } else {
        d
    }
}

/// The branch shown on a masked TIN: the trimmed code, or `00000` when blank.
pub open spec fn masked_branch(raw: Seq<char>) -> Seq<char> {
    if is_blank(raw) {
        "00000"@
    } else {
        trim(raw)
    }
}

/// `•••-•••-<last4>-<branch>`: a TIN label that never shows the root digits.
pub open spec fn masked_tin(tin_last4: Seq<char>, branch_code: Seq<char>) -> Seq<char> {
    "•••-•••-"@ + masked_last4(tin_last4) + "-"@ + masked_branch(branch_code)
}

fn push_all(out: &mut String, v: &Vec<char>)
    ensures
        final(out)@ == old(out)@ + v@,
{
    let mut i: usize = 0;
    while i < v.len()
        invariant
            i <= v@.len(),
            out@ == old(out)@ + v@.subrange(0, i as int),
        decreases v.len() - i,
    {
        push_char(out, v[i]);
        proof {
            assert(v@.subrange(0, i as int + 1) =~= v@.subrange(0, i as int).push(v@[i as int]));
        }
        i = i + 1;
    }
    assert(v@.subrange(0, v@.len() as int) =~= v@);
}

/// A display label for a TIN that shows only its last four digits and the branch.
pub fn masked_tin_label(tin_last4: &str, branch_code: &str) -> (label: String)
    ensures
        label@ == masked_tin(tin_last4@, branch_code@),
{
    let digits = digits_chars(tin_last4);
    let mut last4: Vec<char> = Vec::new();
    if digits.len() >= 4 {
        let mut i = digits.len() - 4;
        while i < digits.len()
            invariant
                digits@.len() >= 4,
                digits@.len() - 4 <= i <= digits@.len(),
                last4@ == digits@.subrange(digits@.len() - 4, i as int),
            decreases digits.len() - i,
        {
            last4.push(digits[i]);
            i = i + 1;
        }
    } else if digits.len() == 0 {
        last4 = chars_of("••••");
    } else {
        last4 = digits;
    }
    let branch = if is_blank_str(branch_code) {
        chars_of("00000")
    } else {
        trim_chars(branch_code)
    };
    let mut label = owned("•••-•••-");
    push_all(&mut label, &last4);
    push_char(&mut label, '-');
    push_all(&mut label, &branch);
    proof {
        reveal_strlit("-");
    }
    assert(label@ =~= masked_tin(tin_last4@, branch_code@));
    label
}


pub open spec fn strictly_descending(s: Seq<i16>) -> bool {
    forall|i: int, j: int| 0 <= i < j < s.len() ==> s[i] > s[j]
}

/// A year offered by the yearly picker: the two years before `current` through the
/// year after it, and every year that already has a record.
pub open spec fn year_offered(existing: Seq<i16>, current: i16, y: i16) -> bool {
    current - 2 <= y <= current + 1 || existing.contains(y)
}

/// Adds `y` to a strictly descending list unless it is already there.
fn insert_descending(years: &mut Vec<i16>, y: i16)
    requires
        strictly_descending(old(years)@),
    ensures
        strictly_descending(final(years)@),
        forall|x: i16| final(years)@.contains(x) <==> (old(years)@.contains(x) || x == y),
{
    let mut p: usize = 0;
    while p < years.len() && years[p] > y
        invariant
            p <= years@.len(),
            years@ == old(years)@,
            forall|k: int| 0 <= k < p ==> years@[k] > y,
        decreases years.len() - p,
    {
        p = p + 1;
    }
    if p < years.len() && years[p] == y {
        assert(years@[p as int] == y);
        assert(years@.contains(y));
        return;
    }
    let ghost before = years@;
    years.insert(p, y);
    proof {
        assert(years@ == before.insert(p as int, y));
        assert forall|i: int, j: int| 0 <= i < j < years@.len() implies years@[i] > years@[j] by {
            if j < p {
            } else if i < p && j == p {
            } else if i < p {
                assert(years@[j] == before[j - 1]);
            } else if i == p {
                assert(years@[j] == before[j - 1]);
                assert(before[p as int] < y || p == before.len());
                if j - 1 > p {
                    assert(before[p as int] > before[j - 1]);
                }
            } else {
                assert(years@[i] == before[i - 1]);
                assert(years@[j] == before[j - 1]);
            }
        }
        assert forall|x: i16| years@.contains(x) <==> (before.contains(x) || x == y) by {
            if years@.contains(x) {
                let k = choose|k: int| 0 <= k < years@.len() && years@[k] == x;
                if k < p {
                    assert(before[k] == x);
                } else if k > p {
                    assert(before[k - 1] == x);
                }
            }
            if before.contains(x) {
                let k = choose|k: int| 0 <= k < before.len() && before[k] == x;
                if k < p {
                    assert(years@[k] == x);
                } else {
                    assert(years@[k + 1] == x);
                }
            }
            if x == y {
                assert(years@[p as int] == y);
            }
        }
    }
}

/// The years offered by the yearly picker, newest first and without repeats: the two
/// years before `current` through the year after it, and every year in `existing`.
pub fn year_choices(existing: &[i16], current: i16) -> (years: Vec<i16>)
    requires
        i16::MIN + 2 <= current <= i16::MAX - 1,
    ensures
        strictly_descending(years@),
        forall|y: i16| years@.contains(y) <==> year_offered(existing@, current, y),
{
    let mut years: Vec<i16> = vec![current + 1, current, current - 1, current - 2];
    proof {
        assert forall|y: i16| years@.contains(y) <==> (current - 2 <= y <= current + 1) by {
            if current - 2 <= y <= current + 1 {
                if y == current + 1 {
                    assert(years@[0] == y);
                } else if y == current {
                    assert(years@[1] == y);
                } else if y == current - 1 {
                    assert(years@[2] == y);
                } else {
                    assert(years@[3] == y);
                }
            }
        }
    }
    let mut i: usize = 0;
    while i < existing.len()
        invariant
            i <= existing@.len(),
            strictly_descending(years@),
            forall|y: i16| years@.contains(y) <==> (current - 2 <= y <= current + 1
                || existing@.subrange(0, i as int).contains(y)),
        decreases existing.len() - i,
    {
        let y = existing[i];
        insert_descending(&mut years, y);
        proof {
            let prefix = existing@.subrange(0, i as int);
            let next = existing@.subrange(0, i as int + 1);
            assert(next =~= prefix.push(y));
            assert forall|x: i16| next.contains(x) <==> (prefix.contains(x) || x == y) by {
                if next.contains(x) {
                    let k = choose|k: int| 0 <= k < next.len() && next[k] == x;
                    if k < i {
                        assert(prefix[k] == x);
                    }
                }
                if prefix.contains(x) {
                    let k = choose|k: int| 0 <= k < prefix.len() && prefix[k] == x;
                    assert(next[k] == x);
                }
                if x == y {
                    assert(next[i as int] == y);
                }
            }
        }
        i = i + 1;
    }
    assert(existing@.subrange(0, existing@.len() as int) =~= existing@);
    years
}


/// `a < b` in the order of `str::cmp`: character by character from position `i`,
/// a proper prefix ordering first.
pub open spec fn text_lt_from(a: Seq<char>, b: Seq<char>, i: int) -> bool
    decreases a.len() - i,
{
    if i < 0 || i >= a.len() {
        0 <= i < b.len()
    } else if i >= b.len() {
        false
    } else if a[i] != b[i] {
        (a[i] as u32) < (b[i] as u32)
    } else {
        text_lt_from(a, b, i + 1)
    }
}

/// `a < b` in the order of `str::cmp`.
pub open spec fn text_lt(a: Seq<char>, b: Seq<char>) -> bool {
    text_lt_from(a, b, 0)
}

/// The order in which profiles are listed: by `tin_last4`, then `holder_kind`, then
/// `branch_code`.
pub open spec fn view_lt(a: TaxProfileView, b: TaxProfileView) -> bool {
    ||| text_lt(a.tin_last4@, b.tin_last4@)
    ||| a.tin_last4@ == b.tin_last4@ && text_lt(a.holder_kind@, b.holder_kind@)
    ||| a.tin_last4@ == b.tin_last4@ && a.holder_kind@ == b.holder_kind@ && text_lt(
        a.branch_code@,
        b.branch_code@,
    )
}

/// Where a stable sort places `p` among the sorted `s`: before the first element at or
/// after `j` that orders strictly after `p`.
pub open spec fn insertion_point(s: Seq<TaxProfileView>, p: TaxProfileView, j: int) -> int
    decreases s.len() - j,
{
    if j < 0 || j >= s.len() {
        s.len() as int
    } else if view_lt(p, s[j]) {
        j
    } else {
        insertion_point(s, p, j + 1)
    }
}

/// `s` stably sorted by `view_lt`.
pub open spec fn sorted_views(s: Seq<TaxProfileView>) -> Seq<TaxProfileView>
    decreases s.len(),
{
    if s.len() == 0 {
        s
    } else {
        let t = sorted_views(s.drop_last());
        t.insert(insertion_point(t, s.last(), 0), s.last())
    }
}

/// A group of profiles that share a TIN and holder kind, as values.
pub struct TinGroupModel {
    pub tin_last4: Seq<char>,
    pub display_name: Seq<char>,
    pub holder_kind: Seq<char>,
    pub branches: Seq<TaxProfileView>,
}

pub open spec fn group_model(g: TaxProfileTinGroup) -> TinGroupModel {
    TinGroupModel {
        tin_last4: g.tin_last4@,
        display_name: g.display_name@,
        holder_kind: g.holder_kind@,
        branches: g.branches@,
    }
}

pub open spec fn group_models(gs: Seq<TaxProfileTinGroup>) -> Seq<TinGroupModel> {
    gs.map_values(|g: TaxProfileTinGroup| group_model(g))
}

/// The first group at or after `j` with this TIN and holder kind, or -1.
pub open spec fn group_index(gs: Seq<TinGroupModel>, tin: Seq<char>, holder: Seq<char>, j: int) -> int
    decreases gs.len() - j,
{
    if j < 0 || j >= gs.len() {
        -1
    } else if gs[j].tin_last4 == tin && gs[j].holder_kind == holder {
        j
    } else {
        group_index(gs, tin, holder, j + 1)
    }
}

/// Files `p` under its group: appended to the branches of the group with its TIN and
/// holder kind (which takes `p`'s display name while its own is blank), or a new group.
pub open spec fn add_to_groups(gs: Seq<TinGroupModel>, p: TaxProfileView) -> Seq<TinGroupModel> {
    let j = group_index(gs, p.tin_last4@, p.holder_kind@, 0);
    if j >= 0 {
        gs.update(
            j,
            TinGroupModel {
                tin_last4: gs[j].tin_last4,
                display_name: if is_blank(gs[j].display_name) {
                    p.display_name@
                } else {
                    gs[j].display_name
                },
                holder_kind: gs[j].holder_kind,
                branches: gs[j].branches.push(p),
            },
        )
    } else {
        gs.push(
            TinGroupModel {
                tin_last4: p.tin_last4@,
                display_name: p.display_name@,
                holder_kind: p.holder_kind@,
                branches: seq![p],
            },
        )
    }
}

/// The groups formed by filing the profiles of `s` in order.
pub open spec fn fold_groups(s: Seq<TaxProfileView>) -> Seq<TinGroupModel>
    decreases s.len(),
{
    if s.len() == 0 {
        Seq::empty()
    } else {
        add_to_groups(fold_groups(s.drop_last()), s.last())
    }
}

/// The TIN groups of a list of profiles: sorted, then filed in order.
pub open spec fn tin_groups(s: Seq<TaxProfileView>) -> Seq<TinGroupModel> {
    fold_groups(sorted_views(s))
}

fn text_lt_exec(a: &str, b: &str) -> (lt: bool)
    ensures
        lt == text_lt(a@, b@),
{
    let av = chars_of(a);
    let bv = chars_of(b);
    let mut i: usize = 0;
    loop
        invariant
            av@ == a@,
            bv@ == b@,
            i <= av@.len(),
            i <= bv@.len(),
            text_lt_from(a@, b@, 0) == text_lt_from(a@, b@, i as int),
        decreases av.len() - i,
    {
        if i == av.len() {
            return i < bv.len();
        }
        if i == bv.len() {
            return false;
        }
        let x = av[i];
        let y = bv[i];
        if x != y {
            return (x as u32) < (y as u32);
        }
        i = i + 1;
    }
}

fn view_lt_exec(a: &TaxProfileView, b: &TaxProfileView) -> (lt: bool)
    ensures
        lt == view_lt(*a, *b),
{
    if text_lt_exec(a.tin_last4.as_str(), b.tin_last4.as_str()) {
        return true;
    }
    if !str_eq(a.tin_last4.as_str(), b.tin_last4.as_str()) {
        return false;
    }
    if text_lt_exec(a.holder_kind.as_str(), b.holder_kind.as_str()) {
        return true;
    }
    if !str_eq(a.holder_kind.as_str(), b.holder_kind.as_str()) {
        return false;
    }
    text_lt_exec(a.branch_code.as_str(), b.branch_code.as_str())
}

/// Stable sort by (`tin_last4`, `holder_kind`, `branch_code`).
fn sort_profiles(profiles: Vec<TaxProfileView>) -> (sorted: Vec<TaxProfileView>)
    ensures
        sorted@ == sorted_views(profiles@),
{
    let ghost input = profiles@;
    let mut rest = profiles;
    let mut sorted: Vec<TaxProfileView> = Vec::new();
    let ghost mut done: int = 0;
    while rest.len() > 0
        invariant
            0 <= done <= input.len(),
            rest@ == input.subrange(done, input.len() as int),
            sorted@ == sorted_views(input.subrange(0, done)),
        decreases rest.len(),
    {
        let p = rest.remove(0);
        let mut pos: usize = 0;
        while pos < sorted.len() && !view_lt_exec(&p, &sorted[pos])
            invariant
                pos <= sorted@.len(),
                insertion_point(sorted@, p, 0) == insertion_point(sorted@, p, pos as int),
            decreases sorted.len() - pos,
        {
            pos = pos + 1;
        }
        proof {
            let prefix = input.subrange(0, done + 1);
            assert(prefix.drop_last() =~= input.subrange(0, done));
            assert(prefix.last() == p);
        }
        sorted.insert(pos, p);
        proof {
            done = done + 1;
            assert(rest@ =~= input.subrange(done, input.len() as int));
        }
    }
    assert(input.subrange(0, input.len() as int) =~= input);
    sorted
}

fn find_group(groups: &Vec<TaxProfileTinGroup>, tin: &str, holder: &str) -> (found: Option<usize>)
    ensures
        match found {
            Some(j) => j < groups@.len() && group_index(group_models(groups@), tin@, holder@, 0)
                == j,
            None => group_index(group_models(groups@), tin@, holder@, 0) == -1,
        },
{
    let ghost models = group_models(groups@);
    let mut j: usize = 0;
    while j < groups.len()
        invariant
            models == group_models(groups@),
            j <= groups@.len(),
            group_index(models, tin@, holder@, 0) == group_index(models, tin@, holder@, j as int),
        decreases groups.len() - j,
    {
        let g = &groups[j];
        if str_eq(g.tin_last4.as_str(), tin) && str_eq(g.holder_kind.as_str(), holder) {
            return Some(j);
        }
        j = j + 1;
    }
    None
}

/// Groups profiles by TIN for display. A personal account holds one TIN with many
/// branches; a firm account holds many TINs. Profiles are first sorted by
/// (`tin_last4`, `holder_kind`, `branch_code`); each group takes the first non-blank
/// display name among its branches.
pub fn group_tax_profiles_by_tin(profiles: Vec<TaxProfileView>) -> (groups: Vec<TaxProfileTinGroup>)
    ensures
        group_models(groups@) == tin_groups(profiles@),
{
    let sorted = sort_profiles(profiles);
    let ghost input = sorted@;
    let mut rest = sorted;
    let mut groups: Vec<TaxProfileTinGroup> = Vec::new();
    let ghost mut done: int = 0;
    proof {
        assert(group_models(groups@) =~= fold_groups(input.subrange(0, 0)));
    }
    while rest.len() > 0
        invariant
            0 <= done <= input.len(),
            rest@ == input.subrange(done, input.len() as int),
            group_models(groups@) == fold_groups(input.subrange(0, done)),
        decreases rest.len(),
    {
        let profile = rest.remove(0);
        let ghost before = group_models(groups@);
        proof {
            let prefix = input.subrange(0, done + 1);
            assert(prefix.drop_last() =~= input.subrange(0, done));
            assert(prefix.last() == profile);
        }
        match find_group(&groups, profile.tin_last4.as_str(), profile.holder_kind.as_str()) {
            Some(j) => {
                let ghost old_groups = groups@;
                let mut group = groups.remove(j);
                let ghost og = group;
                assert(before[j as int] == group_model(og));
                if is_blank_str(group.display_name.as_str()) {
                    group.display_name = profile.display_name.clone();
                }
                group.branches.push(profile);
                let ghost updated = TinGroupModel {
                    tin_last4: before[j as int].tin_last4,
                    display_name: if is_blank(before[j as int].display_name) {
                        profile.display_name@
                    } else {
                        before[j as int].display_name
                    },
                    holder_kind: before[j as int].holder_kind,
                    branches: before[j as int].branches.push(profile),
                };
                assert(group_model(group) == updated);
                groups.insert(j, group);
                proof {
                    assert(groups@ =~= old_groups.update(j as int, group));
                    assert(add_to_groups(before, profile) == before.update(j as int, updated));
                    assert(group_models(groups@) =~= before.update(j as int, updated));
                }
            },
            None => {
                let group = TaxProfileTinGroup {
                    tin_last4: profile.tin_last4.clone(),
                    display_name: profile.display_name.clone(),
                    holder_kind: profile.holder_kind.clone(),
                    branches: vec![profile],
                };
                assert(group.branches@ =~= seq![profile]);
                let ghost fresh = TinGroupModel {
                    tin_last4: profile.tin_last4@,
                    display_name: profile.display_name@,
                    holder_kind: profile.holder_kind@,
                    branches: seq![profile],
                };
                assert(group_model(group) == fresh);
                groups.push(group);
                proof {
                    assert(add_to_groups(before, profile) == before.push(fresh));
                    assert(group_models(groups@) =~= before.push(fresh));
                }
            },
        }
        proof {
            done = done + 1;
            assert(rest@ =~= input.subrange(done, input.len() as int));
        }
    }
    assert(input.subrange(0, input.len() as int) =~= input);
    groups
}

} // verus!
