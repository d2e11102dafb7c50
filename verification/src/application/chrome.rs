//! The workspace chrome's decisions: when a member without a workspace is sent to
//! onboarding, the URL slug suggested for a new workspace, what the workspace switcher
//! shows and links to, and how the account menu names the member.

use vstd::prelude::*;
use crate::contracts::auth::SessionView;
use crate::contracts::organization::OrganizationSummary;
use crate::text::{
    chars_of, concat2, has_prefix, is_alnum, is_blank, is_blank_str, lower_char, lower_char_exec,
    owned, str_eq, string_of, trim, trim_chars, trim_end_char, trim_end_char_vec, upper_char,
    upper_char_exec,
};

verus! {

/// Pages a member without a workspace may still open.
pub open spec fn onboarding_exempt(path: Seq<char>) -> bool {
    has_prefix(path, "/onboarding"@) || has_prefix(path, "/auth"@) || has_prefix(path, "/invitations"@)
        || has_prefix(path, "/login"@) || has_prefix(path, "/register"@)
}

fn starts_with_exec(v: &Vec<char>, p: &str) -> (b: bool)
    ensures
        b == has_prefix(v@, p@),
{
    let pc = chars_of(p);
    if pc.len() > v.len() {
        return false;
    }
    let mut i: usize = 0;
    while i < pc.len()
        invariant
            pc@ == p@,
            pc@.len() <= v@.len(),
            i <= pc@.len(),
            forall|j: int| 0 <= j < i ==> v@[j] == pc@[j],
        decreases pc.len() - i,
    {
        if v[i] != pc[i] {
            assert(v@.subrange(0, pc@.len() as int)[i as int] != p@[i as int]);
            return false;
        }
        i = i + 1;
    }
    assert(v@.subrange(0, pc@.len() as int) =~= p@);
    true
}

/// A member is sent to workspace onboarding when their workspaces have loaded and there
/// are none, unless the page (without trailing `/`) is one they may open without one.
pub fn onboarding_redirect_needed(path: &str, organization_count: Option<usize>) -> (b: bool)
    ensures
        b == (!onboarding_exempt(trim_end_char(path@, '/')) && organization_count == Some(0usize)),
{
    let p = trim_end_char_vec(&chars_of(path), '/');
    let exempt = starts_with_exec(&p, "/onboarding") || starts_with_exec(&p, "/auth")
        || starts_with_exec(&p, "/invitations") || starts_with_exec(&p, "/login")
        || starts_with_exec(&p, "/register");
    if exempt {
        return false;
    }
    match organization_count {
        Some(n) => n == 0,
        None => false,
    }
}

/// One step of suggesting a workspace slug: ASCII letters (lower-cased) and digits are
/// kept; any run of other characters after the first kept one becomes one `-`.
pub open spec fn workspace_slug_step(state: (Seq<char>, bool), c: char) -> (Seq<char>, bool) {
    let lower = lower_char(c);
    if is_alnum(lower) {
        (state.0.push(lower), false)
    } else if !state.1 && state.0.len() > 0 {
        (state.0.push('-'), true)
    } else {
        state
    }
}

pub open spec fn workspace_slug_scan(s: Seq<char>) -> (Seq<char>, bool)
    decreases s.len(),
{
    if s.len() == 0 {
        (Seq::<char>::empty(), false)
    } else {
        workspace_slug_step(workspace_slug_scan(s.drop_last()), s.last())
    }
}

/// The most characters a suggested workspace slug has.
pub const MAX_WORKSPACE_SLUG_CHARS: usize = 48;

/// The slug suggested for a workspace name: the trimmed name read as above, trailing `-`
/// removed, its first 48 characters.
pub open spec fn workspace_slug_of(name: Seq<char>) -> Seq<char> {
    let s = trim_end_char(workspace_slug_scan(trim(name)).0, '-');
    if s.len() > MAX_WORKSPACE_SLUG_CHARS {
        s.take(MAX_WORKSPACE_SLUG_CHARS as int)
    } else {
        s
    }
}

/// Suggests a URL slug for a new workspace from its name.
pub fn workspace_slug_suggestion(name: &str) -> (slug: String)
    ensures
        slug@ == workspace_slug_of(name@),
{
    let t = trim_chars(name);
    let mut out: Vec<char> = Vec::new();
    let mut prev_dash = false;
    let mut i: usize = 0;
    while i < t.len()
        invariant
            i <= t@.len(),
            t@ == trim(name@),
            (out@, prev_dash) == workspace_slug_scan(t@.take(i as int)),
        decreases t.len() - i,
    {
        proof {
            assert(t@.take(i as int + 1).drop_last() =~= t@.take(i as int));
        }
        let lower = lower_char_exec(t[i]);
        if ('0' <= lower && lower <= '9') || ('a' <= lower && lower <= 'z') || ('A' <= lower && lower <= 'Z') {
            out.push(lower);
            prev_dash = false;
        } else if !prev_dash && out.len() > 0 {
            out.push('-');
            prev_dash = true;
        }
        i = i + 1;
    }
    assert(t@.take(t@.len() as int) =~= t@);
    let trimmed = trim_end_char_vec(&out, '-');
    if trimmed.len() > MAX_WORKSPACE_SLUG_CHARS {
        let mut cut: Vec<char> = Vec::new();
        let mut k: usize = 0;
        while k < MAX_WORKSPACE_SLUG_CHARS
            invariant
                k <= MAX_WORKSPACE_SLUG_CHARS < trimmed@.len(),
                cut@ == trimmed@.take(k as int),
            decreases MAX_WORKSPACE_SLUG_CHARS - k,
        {
            cut.push(trimmed[k]);
            assert(trimmed@.take(k as int + 1) =~= trimmed@.take(k as int).push(trimmed@[k as int]));
            k = k + 1;
        }
        string_of(&cut)
    } else {
        string_of(&trimmed)
    }
}

proof fn lemma_workspace_slug_scan_shape(s: Seq<char>)
    ensures
        workspace_slug_scan(s).0.len() > 0 ==> workspace_slug_scan(s).0[0] != '-',
        forall|i: int|
            0 <= i < workspace_slug_scan(s).0.len() ==> {
                let c = #[trigger] workspace_slug_scan(s).0[i];
                c == '-' || ('a' <= c <= 'z') || ('0' <= c <= '9')
            },
    decreases s.len(),
{
    if s.len() > 0 {
        lemma_workspace_slug_scan_shape(s.drop_last());
        let prev = workspace_slug_scan(s.drop_last());
        let next = workspace_slug_scan(s);
        assert forall|i: int| 0 <= i < next.0.len() implies {
            let c = #[trigger] next.0[i];
            c == '-' || ('a' <= c <= 'z') || ('0' <= c <= '9')
        } by {
            if i < prev.0.len() {
                assert(next.0[i] == prev.0[i]);
            } else {
                let lower = lower_char(s.last());
                if is_alnum(lower) {
                    assert(next.0[i] == lower);
                    assert(lower as u32 == s.last() as u32 + 32 || lower == s.last());
                }
            }
        }
        if prev.0.len() > 0 {
            assert(next.0[0] == prev.0[0]);
        }
    }
}

/// A suggested workspace slug is URL-safe: lower-case ASCII letters, digits and `-`, never
/// starting with `-`, at most 48 characters.
pub proof fn lemma_workspace_slug_is_url_safe(name: Seq<char>)
    ensures
        workspace_slug_of(name).len() <= MAX_WORKSPACE_SLUG_CHARS,
        workspace_slug_of(name).len() > 0 ==> workspace_slug_of(name)[0] != '-',
        forall|i: int|
            0 <= i < workspace_slug_of(name).len() ==> {
                let c = #[trigger] workspace_slug_of(name)[i];
                c == '-' || ('a' <= c <= 'z') || ('0' <= c <= '9')
            },
{
    let scanned = workspace_slug_scan(trim(name)).0;
    lemma_workspace_slug_scan_shape(trim(name));
    crate::text::lemma_trailing_count_bound(scanned, '-');
    let s = trim_end_char(scanned, '-');
    assert forall|i: int| 0 <= i < workspace_slug_of(name).len() implies {
        let c = #[trigger] workspace_slug_of(name)[i];
        c == '-' || ('a' <= c <= 'z') || ('0' <= c <= '9')
    } by {
        assert(workspace_slug_of(name)[i] == s[i]);
        assert(s[i] == scanned[i]);
    }
    if workspace_slug_of(name).len() > 0 {
        assert(workspace_slug_of(name)[0] == scanned[0]);
    }
}

/// The workspace the switcher marks active: the session's (not blank), when it is among
/// the member's workspaces.
pub open spec fn active_workspace_index(tenant_id: Option<Seq<char>>, orgs: Seq<OrganizationSummary>) -> int {
    match tenant_id {
        Some(t) => if is_blank(t) {
            -1
        } else {
            crate::application::dashboard::org_index(orgs, t, 0)
        },
        None => -1,
    }
}

/// What the workspace switcher shows: the active workspace's name (or `No workspace` /
/// `Select workspace`), and where its vault and settings links go.
pub struct SwitcherView {
    pub label: String,
    pub vault_href: String,
    pub settings_href: String,
    pub active_index: Option<usize>,
}

/// The switcher's label and links.
pub open spec fn switcher_texts(tenant_id: Option<Seq<char>>, orgs: Seq<OrganizationSummary>) -> (Seq<char>, Seq<char>, Seq<char>) {
    let k = active_workspace_index(tenant_id, orgs);
    if k >= 0 {
        let o = orgs[k];
        (
            o.name@,
            if o.slug@.len() == 0 {
                "/account/vault"@
            } else {
                "/org/"@ + o.slug@ + "/vault"@
            },
            if o.slug@.len() == 0 {
                "/organizations"@
            } else {
                "/org/"@ + o.slug@ + "/settings/general"@
            },
        )
    } else {
        (
            if orgs.len() == 0 {
                "No workspace"@
            } else {
                "Select workspace"@
            },
            "/organizations"@,
            "/organizations"@,
        )
    }
}

/// The workspace switcher for a session and the member's workspaces.
pub fn workspace_switcher(tenant_id: &Option<String>, orgs: &Vec<OrganizationSummary>) -> (v: SwitcherView)
    ensures
        (v.label@, v.vault_href@, v.settings_href@) == switcher_texts(crate::application::dashboard::opt_view(*tenant_id), orgs@),
        match v.active_index {
            Some(i) => i as int == active_workspace_index(crate::application::dashboard::opt_view(*tenant_id), orgs@),
            None => active_workspace_index(crate::application::dashboard::opt_view(*tenant_id), orgs@) < 0,
        },
{
    let active: Option<usize> = match tenant_id {
        Some(t) => if is_blank_str(t.as_str()) {
            None
        } else {
            find_org(orgs, t.as_str())
        },
        None => None,
    };
    match active {
        Some(k) => {
            let o = &orgs[k];
            let (vault, settings) = if o.slug.unicode_len() == 0 {
                (owned("/account/vault"), owned("/organizations"))
            } else {
                let base = concat2("/org/", o.slug.as_str());
                (concat2(base.as_str(), "/vault"), concat2(base.as_str(), "/settings/general"))
            };
            SwitcherView { label: o.name.clone(), vault_href: vault, settings_href: settings, active_index: Some(k) }
        },
        None => {
            let label = if orgs.len() == 0 {
                owned("No workspace")
            } else {
                owned("Select workspace")
            };
            SwitcherView {
                label,
                vault_href: owned("/organizations"),
                settings_href: owned("/organizations"),
                active_index: None,
            }
        },
    }
}

fn find_org(orgs: &Vec<OrganizationSummary>, id: &str) -> (r: Option<usize>)
    ensures
        match r {
            Some(i) => i < orgs@.len() && i as int == crate::application::dashboard::org_index(orgs@, id@, 0),
            None => crate::application::dashboard::org_index(orgs@, id@, 0) == -1,
        },
{
    let mut i: usize = 0;
    while i < orgs.len()
        invariant
            i <= orgs@.len(),
            crate::application::dashboard::org_index(orgs@, id@, 0)
                == crate::application::dashboard::org_index(orgs@, id@, i as int),
        decreases orgs.len() - i,
    {
        if str_eq(orgs[i].organization_id.as_str(), id) {
            return Some(i);
        }
        i = i + 1;
    }
    None
}

/// The line under a workspace in the switcher list: `Active` for the active one, else its
/// `/org/<slug>` path (empty without a slug).
pub fn switcher_item_meta(org: &OrganizationSummary, is_active: bool) -> (meta: String)
    ensures
        meta@ == if is_active {
            "Active"@
        } else if org.slug@.len() == 0 {
            Seq::<char>::empty()
        } else {
            "/org/"@ + org.slug@
        },
{
    if is_active {
        owned("Active")
    } else if org.slug.unicode_len() == 0 {
        String::new()
    } else {
        concat2("/org/", org.slug.as_str())
    }
}

/// How the account menu names the member: the email, else the user id, else
/// `Signed in`; its avatar shows the first character upper-cased, or `U`.
pub open spec fn menu_identity(session: SessionView) -> (Seq<char>, char) {
    let label = match session.primary_email {
        Some(e) => e@,
        None => match session.user_id {
            Some(u) => u@,
            None => "Signed in"@,
        },
    };
    (label, if label.len() > 0 {
        upper_char(label[0])
    } else {
        'U'
    })
}

/// The account menu's name and avatar letter.
pub fn user_menu_identity(session: &SessionView) -> (r: (String, char))
    ensures
        (r.0@, r.1) == menu_identity(*session),
{
    let label = match &session.primary_email {
        Some(e) => e.clone(),
        None => match &session.user_id {
            Some(u) => u.clone(),
            None => owned("Signed in"),
        },
    };
    let initial = if label.unicode_len() > 0 {
        upper_char_exec(label.get_char(0))
    } else {
        'U'
    };
    (label, initial)
}


/// Where a settings-section link goes: `/org/<slug>/settings/<section>`, or the
/// workspace list when no workspace is selected (the link is then shown disabled).
pub fn settings_section_href(slug: &str, section: &str) -> (r: (String, bool))
    ensures
        slug@.len() == 0 ==> r.0@ == "/organizations"@ && r.1,
        slug@.len() > 0 ==> r.0@ == "/org/"@ + slug@ + "/settings/"@ + section@ && !r.1,
{
    if slug.unicode_len() == 0 {
        return (owned("/organizations"), true);
    }
    let a = concat2("/org/", slug);
    let b = concat2(a.as_str(), "/settings/");
    (concat2(b.as_str(), section), false)
}

} // verus!
