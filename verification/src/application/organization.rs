//! Workspace roles: built-in role names, which permissions a custom role may grant, and
//! capability checks against a membership.

use vstd::prelude::*;
use crate::contracts::organization::{
    InvitationSummary, MembershipSummary, OrganizationSummary, PermissionOption, RoleSummary,
    WorkspaceRoleOption, WorkspaceSettingsContext, WorkspaceSettingsMembership,
    WorkspaceSettingsOrganization,
};
use crate::error::AuthStackError;
use crate::text::{
    chars_of, concat2, is_alnum, is_blank, is_blank_str, lemma_trailing_count_bound, lower_char,
    lower_char_exec, lower_chars, owned, split_on, split_vec, str_eq, string_of, to_lower, trim,
    trim_chars, trim_end_char, trim_end_char_vec, trim_str, upper_char, upper_char_exec, vec_eq,
};

verus! {

/// A `/org/{slug}/…` workspace resolved for the signed-in principal.
#[derive(Clone, Debug, PartialEq, Eq)]
pub struct ResolvedWorkspace {
    pub organization_id: String,
    pub organization: OrganizationSummary,
}

/// The display name of a role: the built-in roles are capitalised, any other id is shown
/// as it is.
pub open spec fn role_display_name(role_id: Seq<char>) -> Seq<char> {
    if role_id == "owner"@ {
        "Owner"@
    } else if role_id == "admin"@ {
        "Admin"@
    } else if role_id == "member"@ {
        "Member"@
    } else if role_id == "viewer"@ {
        "Viewer"@
    } else {
        role_id
    }
}

/// The display name of a role.
pub fn built_in_role_display_name(role_id: &str) -> (name: String)
    ensures
        name@ == role_display_name(role_id@),
{
    if str_eq(role_id, "owner") {
        owned("Owner")
    } else if str_eq(role_id, "admin") {
        owned("Admin")
    } else if str_eq(role_id, "member") {
        owned("Member")
    } else if str_eq(role_id, "viewer") {
        owned("Viewer")
    } else {
        owned(role_id)
    }
}

/// The most permissions one role may list.
pub const MAX_ROLE_PERMISSIONS: usize = 100;

/// `permission` is the id of one of the assignable options.
pub open spec fn is_assignable(permission: Seq<char>, options: Seq<PermissionOption>) -> bool {
    exists|k: int| 0 <= k < options.len() && (#[trigger] options[k]).id@ == permission
}

/// The first permission at or after `i` that no option offers, or -1.
pub open spec fn first_unassignable(permissions: Seq<String>, options: Seq<PermissionOption>, i: int) -> int
    decreases permissions.len() - i,
{
    if i < 0 || i >= permissions.len() {
        -1
    } else if !is_assignable(permissions[i]@, options) {
        i
    } else {
        first_unassignable(permissions, options, i + 1)
    }
}

/// What validating a role's permission list gives: too long a list is refused, then the
/// first permission that is not assignable to a workspace role is named.
pub open spec fn role_permissions_verdict(
    permissions: Seq<String>,
    options: Seq<PermissionOption>,
) -> Option<Seq<char>> {
    if permissions.len() > MAX_ROLE_PERMISSIONS {
        Some("role permission list is too large"@)
    } else {
        let k = first_unassignable(permissions, options, 0);
        if k < 0 {
            None
        } else {
            Some("permission '"@ + permissions[k]@ + "' is not assignable to a workspace role"@)
        }
    }
}

fn assignable_exec(permission: &str, options: &[PermissionOption]) -> (b: bool)
    ensures
        b == is_assignable(permission@, options@),
{
    let mut k: usize = 0;
    while k < options.len()
        invariant
            k <= options@.len(),
            forall|j: int| 0 <= j < k ==> (#[trigger] options@[j]).id@ != permission@,
        decreases options.len() - k,
    {
        if str_eq(options[k].id.as_str(), permission) {
            return true;
        }
        k = k + 1;
    }
    false
}

/// Workspace roles may only grant permissions the workspace access model offers
/// (`assignable`). Unvalidated strings would be written straight into the role, so a
/// workspace admin could otherwise mint `system.*` and escalate to system administration.
pub fn validate_role_permissions(permissions: &[String], assignable: &[PermissionOption]) -> (r: Result<(), AuthStackError>)
    ensures
        match role_permissions_verdict(permissions@, assignable@) {
            None => r is Ok,
            Some(message) => r matches Err(AuthStackError::Validation { message: m }) && m@ == message,
        },
{
    if permissions.len() > MAX_ROLE_PERMISSIONS {
        return Err(AuthStackError::validation("role permission list is too large"));
    }
    let mut i: usize = 0;
    while i < permissions.len()
        invariant
            i <= permissions@.len(),
            permissions@.len() <= MAX_ROLE_PERMISSIONS,
            first_unassignable(permissions@, assignable@, 0) == first_unassignable(
                permissions@,
                assignable@,
                i as int,
            ),
        decreases permissions.len() - i,
    {
        let permission = &permissions[i];
        if !assignable_exec(permission.as_str(), assignable) {
            assert(permissions@[i as int] == *permission);
            let a = concat2("permission '", permission.as_str());
            let message = concat2(a.as_str(), "' is not assignable to a workspace role");
            return Err(AuthStackError::validation(message.as_str()));
        }
        i = i + 1;
    }
    Ok(())
}

/// The membership grants `permission`.
pub open spec fn grants(organization: OrganizationSummary, permission: Seq<char>) -> bool {
    exists|k: int|
        0 <= k < organization.permissions@.len() && (#[trigger] organization.permissions@[k])@
            == permission
}

/// Whether the membership grants `permission`.
pub fn has_capability(organization: &OrganizationSummary, permission: &str) -> (b: bool)
    ensures
        b == grants(*organization, permission@),
{
    let mut k: usize = 0;
    while k < organization.permissions.len()
        invariant
            k <= organization.permissions@.len(),
            forall|j: int| 0 <= j < k ==> (#[trigger] organization.permissions@[j])@ != permission@,
        decreases organization.permissions.len() - k,
    {
        if str_eq(organization.permissions[k].as_str(), permission) {
            return true;
        }
        k = k + 1;
    }
    false
}


/// The longest role id, in bytes.
pub const MAX_ROLE_ID_LEN: usize = 128;

/// A character a role id may hold: an ASCII letter or digit, `.`, `_` or `-`.
pub open spec fn role_id_char(c: char) -> bool {
    is_alnum(c) || c == '.' || c == '_' || c == '-'
}

/// A role id is non-empty, at most 128 bytes long, and made of role-id characters only
/// (all ASCII, so its length in bytes is its length in characters).
pub open spec fn valid_role_id(value: Seq<char>) -> bool {
    &&& value.len() > 0
    &&& value.len() <= MAX_ROLE_ID_LEN
    &&& forall|i: int| 0 <= i < value.len() ==> role_id_char(#[trigger] value[i])
}

/// Whether `value` can be used as a role id.
pub fn is_valid_role_id(value: &str) -> (b: bool)
    ensures
        b == valid_role_id(value@),
{
    let v = chars_of(value);
    if v.len() == 0 || v.len() > MAX_ROLE_ID_LEN {
        return false;
    }
    let mut i: usize = 0;
    while i < v.len()
        invariant
            i <= v@.len(),
            v@ == value@,
            forall|j: int| 0 <= j < i ==> role_id_char(#[trigger] v@[j]),
        decreases v.len() - i,
    {
        let c = v[i];
        let ok = ('0' <= c && c <= '9') || ('a' <= c && c <= 'z') || ('A' <= c && c <= 'Z')
            || c == '.' || c == '_' || c == '-';
        if !ok {
            assert(!role_id_char(v@[i as int]));
            return false;
        }
        i = i + 1;
    }
    true
}

/// One step of turning a role name into an id. The state is the id so far and whether it
/// ends in a `-` that stands for a run of other characters. Letters are lowercased and
/// kept with digits; `.`, `_` and `-` are kept unless the id is empty or just had such a
/// `-`; any other run of characters becomes one `-`, never at the start.
pub open spec fn slug_step(state: (Seq<char>, bool), c: char) -> (Seq<char>, bool) {
    let out = state.0;
    let last_dash = state.1;
    let lower = lower_char(c);
    if is_alnum(lower) {
        (out.push(lower), false)
    } else if lower == '.' || lower == '_' || lower == '-' {
        if out.len() > 0 && !last_dash {
            (out.push(lower), lower == '-')
        } else {
            state
        }
    } else if out.len() > 0 && !last_dash {
        (out.push('-'), true)
    } else {
        state
    }
}

/// The state after reading all of `s`.
pub open spec fn slug_scan(s: Seq<char>) -> (Seq<char>, bool)
    decreases s.len(),
{
    if s.len() == 0 {
        (Seq::<char>::empty(), false)
    } else {
        slug_step(slug_scan(s.drop_last()), s.last())
    }
}

/// The role id suggested for a role name: the trimmed name read as above, trailing `-`
/// removed, cut to 128 characters.
pub open spec fn role_slug(name: Seq<char>) -> Seq<char> {
    let s = trim_end_char(slug_scan(trim(name)).0, '-');
    if s.len() > MAX_ROLE_ID_LEN {
        s.take(MAX_ROLE_ID_LEN as int)
    } else {
        s
    }
}

/// Suggests a role id for a role name.
pub fn slugify_role_id(name: &str) -> (id: String)
    ensures
        id@ == role_slug(name@),
{
    let t = trim_chars(name);
    let mut out: Vec<char> = Vec::new();
    let mut last_dash = false;
    let mut i: usize = 0;
    while i < t.len()
        invariant
            i <= t@.len(),
            t@ == trim(name@),
            (out@, last_dash) == slug_scan(t@.take(i as int)),
        decreases t.len() - i,
    {
        let ch = t[i];
        proof {
            assert(t@.take(i as int + 1).drop_last() =~= t@.take(i as int));
        }
        let lower = lower_char_exec(ch);
        if ('0' <= lower && lower <= '9') || ('a' <= lower && lower <= 'z') || ('A' <= lower
            && lower <= 'Z') {
            out.push(lower);
            last_dash = false;
        } else if lower == '.' || lower == '_' || lower == '-' {
            if out.len() > 0 && !last_dash {
                out.push(lower);
                last_dash = lower == '-';
            }
        } else if out.len() > 0 && !last_dash {
            out.push('-');
            last_dash = true;
        }
        i = i + 1;
    }
    assert(t@.take(t@.len() as int) =~= t@);
    let trimmed = trim_end_char_vec(&out, '-');
    if trimmed.len() > MAX_ROLE_ID_LEN {
        let mut cut: Vec<char> = Vec::new();
        let mut k: usize = 0;
        while k < MAX_ROLE_ID_LEN
            invariant
                k <= MAX_ROLE_ID_LEN < trimmed@.len(),
                cut@ == trimmed@.take(k as int),
            decreases MAX_ROLE_ID_LEN - k,
        {
            cut.push(trimmed[k]);
            assert(trimmed@.take(k as int + 1) =~= trimmed@.take(k as int).push(trimmed@[k as int]));
            k = k + 1;
        }
        string_of(&cut)
    } else {
        string_of(&trimmed)
    }
}

/// Every character the scan writes is a role-id character.
proof fn lemma_slug_scan_chars(s: Seq<char>)
    ensures
        forall|i: int| 0 <= i < slug_scan(s).0.len() ==> role_id_char(#[trigger] slug_scan(s).0[i]),
    decreases s.len(),
{
    if s.len() > 0 {
        lemma_slug_scan_chars(s.drop_last());
        let prev = slug_scan(s.drop_last());
        let c = s.last();
        let lower = lower_char(c);
        assert(is_alnum(lower) ==> role_id_char(lower));
        let next = slug_step(prev, c);
        assert forall|i: int| 0 <= i < next.0.len() implies role_id_char(#[trigger] next.0[i]) by {
            if i < prev.0.len() {
                assert(next.0[i] == prev.0[i]);
            }
        }
    }
}

/// A suggested role id, when it is not empty, is accepted as a role id.
pub proof fn lemma_slug_is_valid_role_id(name: Seq<char>)
    ensures
        role_slug(name).len() > 0 ==> valid_role_id(role_slug(name)),
{
    let scanned = slug_scan(trim(name)).0;
    lemma_slug_scan_chars(trim(name));
    let s = trim_end_char(scanned, '-');
    lemma_trailing_count_bound(scanned, '-');
    assert forall|i: int| 0 <= i < role_slug(name).len() implies role_id_char(
        #[trigger] role_slug(name)[i],
    ) by {
        assert(role_slug(name)[i] == s[i]);
        assert(s[i] == scanned[i]);
    }
}

/// A part of a permission id with its first character in ASCII upper case.
pub open spec fn capitalized(part: Seq<char>) -> Seq<char> {
    if part.len() == 0 {
        part
    } else {
        seq![upper_char(part[0])] + part.drop_first()
    }
}

/// The non-empty parts, each capitalised.
pub open spec fn label_words(parts: Seq<Seq<char>>) -> Seq<Seq<char>>
    decreases parts.len(),
{
    if parts.len() == 0 {
        Seq::<Seq<char>>::empty()
    } else if parts.last().len() == 0 {
        label_words(parts.drop_last())
    } else {
        label_words(parts.drop_last()).push(capitalized(parts.last()))
    }
}

/// Words joined with single spaces.
pub open spec fn join_words(words: Seq<Seq<char>>) -> Seq<char>
    decreases words.len(),
{
    if words.len() == 0 {
        Seq::<char>::empty()
    } else if words.len() == 1 {
        words[0]
    } else {
        join_words(words.drop_last()) + seq![' '] + words.last()
    }
}

/// The label of a permission id: its `.`-separated parts, empty ones left out, each
/// capitalised, joined with spaces (`workspace.member.manage` → `Workspace Member Manage`).
pub open spec fn permission_label(id: Seq<char>) -> Seq<char> {
    join_words(label_words(split_on(id, '.')))
}

/// A readable label for a permission id.
pub fn humanize_permission_id(id: &str) -> (label: String)
    ensures
        label@ == permission_label(id@),
{
    let v = chars_of(id);
    let parts = split_vec(&v, '.');
    let ghost pv = parts@.map_values(|p: Vec<char>| p@);
    let mut out: Vec<char> = Vec::new();
    let mut i: usize = 0;
    while i < parts.len()
        invariant
            i <= parts@.len(),
            pv == parts@.map_values(|p: Vec<char>| p@),
            out@ == join_words(label_words(pv.take(i as int))),
        decreases parts.len() - i,
    {
        let part = &parts[i];
        let ghost words = label_words(pv.take(i as int));
        proof {
            assert(pv.take(i as int + 1).drop_last() =~= pv.take(i as int));
            assert(pv.take(i as int + 1).last() == part@);
        }
        if part.len() > 0 {
            if out.len() > 0 {
                out.push(' ');
            }
            let ghost before = out@;
            out.push(upper_char_exec(part[0]));
            let mut k: usize = 1;
            while k < part.len()
                invariant
                    1 <= k <= part@.len(),
                    out@ == before + seq![upper_char(part@[0])] + part@.subrange(1, k as int),
                decreases part.len() - k,
            {
                out.push(part[k]);
                assert(part@.subrange(1, k as int + 1) =~= part@.subrange(1, k as int).push(part@[k as int]));
                k = k + 1;
            }
            proof {
                assert(part@.subrange(1, part@.len() as int) =~= part@.drop_first());
                lemma_label_words_nonempty(pv.take(i as int));
                lemma_join_words_empty(words);
                let nw = words.push(capitalized(part@));
                assert(nw.drop_last() =~= words);
                if words.len() > 0 {
                    assert(out@ =~= join_words(words) + seq![' '] + capitalized(part@));
                } else {
                    assert(out@ =~= capitalized(part@));
                }
            }
        }
        i = i + 1;
    }
    assert(pv.take(pv.len() as int) =~= pv);
    string_of(&out)
}

/// Every label word is non-empty.
proof fn lemma_label_words_nonempty(parts: Seq<Seq<char>>)
    ensures
        forall|k: int| 0 <= k < label_words(parts).len() ==> (#[trigger] label_words(parts)[k]).len() > 0,
    decreases parts.len(),
{
    if parts.len() > 0 {
        lemma_label_words_nonempty(parts.drop_last());
        let prev = label_words(parts.drop_last());
        if parts.last().len() > 0 {
            let w = capitalized(parts.last());
            assert(w.len() == parts.last().len());
            assert forall|k: int| 0 <= k < label_words(parts).len() implies (
            #[trigger] label_words(parts)[k]).len() > 0 by {
                if k < prev.len() {
                    assert(label_words(parts)[k] == prev[k]);
                }
            }
        }
    }
}

/// Joined words are empty exactly when there are none (each word is non-empty).
proof fn lemma_join_words_empty(words: Seq<Seq<char>>)
    requires
        forall|k: int| 0 <= k < words.len() ==> (#[trigger] words[k]).len() > 0,
    ensures
        (join_words(words).len() == 0) == (words.len() == 0),
    decreases words.len(),
{
    if words.len() > 1 {
        lemma_join_words_empty(words.drop_last());
    }
}


/// The roles offered in assign and invite pickers: every role but `owner`, in order.
pub open spec fn role_options_of(roles: Seq<RoleSummary>) -> Seq<WorkspaceRoleOption>
    decreases roles.len(),
{
    if roles.len() == 0 {
        Seq::<WorkspaceRoleOption>::empty()
    } else if roles.last().role_id@ == "owner"@ {
        role_options_of(roles.drop_last())
    } else {
        role_options_of(roles.drop_last()).push(
            WorkspaceRoleOption {
                role_id: roles.last().role_id,
                name: roles.last().name,
                built_in: roles.last().built_in,
            },
        )
    }
}

/// The name of the first role among `roles[i..]` with this id.
pub open spec fn role_name_from(roles: Seq<RoleSummary>, role_id: Seq<char>, i: int) -> Option<String>
    decreases roles.len() - i,
{
    if i < 0 || i >= roles.len() {
        None
    } else if roles[i].role_id@ == role_id {
        Some(roles[i].name)
    } else {
        role_name_from(roles, role_id, i + 1)
    }
}

/// How many invitations are still pending.
pub open spec fn pending_count(invitations: Seq<InvitationSummary>) -> nat
    decreases invitations.len(),
{
    if invitations.len() == 0 {
        0
    } else {
        pending_count(invitations.drop_last()) + if invitations.last().status@ == "pending"@ {
            1nat
        } else {
            0nat
        }
    }
}

proof fn lemma_pending_count_bound(invitations: Seq<InvitationSummary>)
    ensures
        pending_count(invitations) <= invitations.len(),
    decreases invitations.len(),
{
    if invitations.len() > 0 {
        lemma_pending_count_bound(invitations.drop_last());
    }
}

fn first_role_name(roles: &Vec<RoleSummary>, role_id: &str) -> (r: Option<String>)
    ensures
        match role_name_from(roles@, role_id@, 0) {
            Some(n) => r matches Some(m) && m@ == n@,
            None => r is None,
        },
{
    let mut i: usize = 0;
    while i < roles.len()
        invariant
            i <= roles@.len(),
            role_name_from(roles@, role_id@, 0) == role_name_from(roles@, role_id@, i as int),
        decreases roles.len() - i,
    {
        if str_eq(roles[i].role_id.as_str(), role_id) {
            return Some(roles[i].name.clone());
        }
        i = i + 1;
    }
    None
}

/// The workspace-settings bootstrap for a member: the workspace, the caller's role (named
/// after the workspace's role of that id when the roles could be listed, else after the
/// built-in name), the caller's capabilities, the roles offered in pickers (not `owner`),
/// and how many members and pending invitations there are (zero when they could not be
/// listed; counts beyond `u32` wrap as the wire type does).
pub fn workspace_settings_context(
    organization: OrganizationSummary,
    requires_step_up: bool,
    roles: Option<Vec<RoleSummary>>,
    memberships: &Option<Vec<MembershipSummary>>,
    invitations: &Option<Vec<InvitationSummary>>,
) -> (c: WorkspaceSettingsContext)
    ensures
        c.organization.organization_id == organization.organization_id,
        c.organization.name == organization.name,
        c.organization.slug == organization.slug,
        c.organization.status == organization.status,
        c.organization.created_at_ms == organization.created_at_ms,
        c.membership.role_id == organization.current_user_role,
        c.membership.status@ == "active"@,
        c.membership.role_name@ == match roles {
            Some(rs) => match role_name_from(rs@, organization.current_user_role@, 0) {
                Some(n) => n@,
                None => role_display_name(organization.current_user_role@),
            },
            None => role_display_name(organization.current_user_role@),
        },
        c.capabilities == organization.permissions,
        c.role_options@ == match roles {
            Some(rs) => role_options_of(rs@),
            None => Seq::<WorkspaceRoleOption>::empty(),
        },
        c.member_count == match memberships {
            Some(ms) => ms@.len() as u32,
            None => 0u32,
        },
        c.pending_invitation_count == match invitations {
            Some(is) => pending_count(is@) as u32,
            None => 0u32,
        },
        c.requires_step_up == requires_step_up,
{
    let mut role_name = built_in_role_display_name(organization.current_user_role.as_str());
    let mut role_options: Vec<WorkspaceRoleOption> = Vec::new();
    match roles {
        Some(rs) => {
            let ghost all = rs@;
            match first_role_name(&rs, organization.current_user_role.as_str()) {
                Some(n) => {
                    role_name = n;
                },
                None => {},
            }
            let mut rest = rs;
            let total = rest.len();
            assert(all.len() == total);
            let mut done: usize = 0;
            while rest.len() > 0
                invariant
                    all.len() <= usize::MAX,
                    done + rest@.len() == all.len(),
                    rest@ == all.subrange(done as int, all.len() as int),
                    role_options@ == role_options_of(all.take(done as int)),
                decreases rest.len(),
            {
                let role = rest.remove(0);
                proof {
                    assert(role == all[done as int]);
                    assert(all.take(done as int + 1).drop_last() =~= all.take(done as int));
                    assert(all.take(done as int + 1).last() == role);
                }
                if !str_eq(role.role_id.as_str(), "owner") {
                    role_options.push(
                        WorkspaceRoleOption { role_id: role.role_id, name: role.name, built_in: role.built_in },
                    );
                }
                done = done + 1;
                assert(rest@ =~= all.subrange(done as int, all.len() as int));
            }
            assert(all.take(all.len() as int) =~= all);
        },
        None => {},
    }
    let member_count: u32 = match memberships {
        Some(ms) => ms.len() as u32,
        None => 0,
    };
    let pending_invitation_count: u32 = match invitations {
        Some(is) => {
            let mut n: usize = 0;
            let mut k: usize = 0;
            while k < is.len()
                invariant
                    k <= is@.len(),
                    n == pending_count(is@.take(k as int)),
                    n <= k,
                decreases is.len() - k,
            {
                proof {
                    assert(is@.take(k as int + 1).drop_last() =~= is@.take(k as int));
                }
                if str_eq(is[k].status.as_str(), "pending") {
                    n = n + 1;
                }
                k = k + 1;
            }
            assert(is@.take(is@.len() as int) =~= is@);
            n as u32
        },
        None => 0,
    };
    let OrganizationSummary { organization_id, name, slug, status, current_user_role, permissions, created_at_ms } = organization;
    WorkspaceSettingsContext {
        organization: WorkspaceSettingsOrganization { organization_id, name, slug, status, created_at_ms },
        membership: WorkspaceSettingsMembership { role_id: current_user_role, role_name, status: owned("active") },
        capabilities: permissions,
        role_options,
        member_count,
        pending_invitation_count,
        requires_step_up,
    }
}


/// The ids of the built-in roles, which custom roles may not take.
pub open spec fn built_in_role_id(id: Seq<char>) -> bool {
    id == "owner"@ || id == "admin"@ || id == "member"@ || id == "viewer"@
}

/// What submitting the custom-role form gives: the trimmed name is required (and a
/// workspace); the role id is the trimmed input, or the id suggested by the name when
/// that is empty; it must be a valid role id and not a built-in one; at least one
/// permission must be selected.
pub open spec fn role_form_outcome(
    slug: Seq<char>,
    role_id_input: Seq<char>,
    role_name: Seq<char>,
    permission_count: nat,
) -> Result<(Seq<char>, Seq<char>), Seq<char>> {
    let name = trim(role_name);
    let typed = trim(role_id_input);
    let id = if typed.len() == 0 {
        role_slug(name)
    } else {
        typed
    };
    if slug.len() == 0 || name.len() == 0 {
        Err("role name is required"@)
    } else if !valid_role_id(id) {
        Err("role id must be 1–128 characters: letters, numbers, ., _, -"@)
    } else if built_in_role_id(id) {
        Err("built-in role ids cannot be used for custom roles"@)
    } else if permission_count == 0 {
        Err("select at least one permission"@)
    } else {
        Ok((id, name))
    }
}

/// Checks the custom-role form; on success gives the role id and name to save, else the
/// message to show.
pub fn role_form_submission(
    slug: &str,
    role_id_input: &str,
    role_name: &str,
    permissions: &Vec<String>,
) -> (r: Result<(String, String), String>)
    ensures
        match role_form_outcome(slug@, role_id_input@, role_name@, permissions@.len()) {
            Ok((id, name)) => r matches Ok((i, n)) && i@ == id && n@ == name,
            Err(message) => r matches Err(m) && m@ == message,
        },
{
    let name = trim_str(role_name);
    let typed = trim_str(role_id_input);
    if slug.unicode_len() == 0 || name.unicode_len() == 0 {
        return Err(owned("role name is required"));
    }
    let id = if typed.unicode_len() == 0 {
        slugify_role_id(name.as_str())
    } else {
        typed
    };
    if !is_valid_role_id(id.as_str()) {
        return Err(owned("role id must be 1–128 characters: letters, numbers, ., _, -"));
    }
    if str_eq(id.as_str(), "owner") || str_eq(id.as_str(), "admin") || str_eq(id.as_str(), "member")
        || str_eq(id.as_str(), "viewer") {
        return Err(owned("built-in role ids cannot be used for custom roles"));
    }
    if permissions.len() == 0 {
        return Err(owned("select at least one permission"));
    }
    Ok((id, name))
}

/// The name a role row shows: its name, or its id when the name is blank.
pub fn role_row_name(role: &RoleSummary) -> (name: String)
    ensures
        name@ == if is_blank(role.name@) {
            role.role_id@
        } else {
            role.name@
        },
{
    if is_blank_str(role.name.as_str()) {
        role.role_id.clone()
    } else {
        role.name.clone()
    }
}


/// Who may deactivate a workspace: a member holding `ownership.transfer`, or the owner.
pub fn can_deactivate_workspace(capabilities: &Vec<String>, role_id: &str) -> (b: bool)
    ensures
        b == (has_permission_in(capabilities@, "ownership.transfer"@) || role_id@ == "owner"@),
{
    let mut k: usize = 0;
    while k < capabilities.len()
        invariant
            k <= capabilities@.len(),
            forall|j: int| 0 <= j < k ==> (#[trigger] capabilities@[j])@ != "ownership.transfer"@,
        decreases capabilities.len() - k,
    {
        if str_eq(capabilities[k].as_str(), "ownership.transfer") {
            return true;
        }
        k = k + 1;
    }
    str_eq(role_id, "owner")
}

/// `permission` is among the listed ones.
pub open spec fn has_permission_in(list: Seq<String>, permission: Seq<char>) -> bool {
    exists|j: int| 0 <= j < list.len() && (#[trigger] list[j])@ == permission
}

/// Text compared for a typed confirmation: trimmed, ASCII lower-case.
pub open spec fn folded(s: Seq<char>) -> Seq<char> {
    to_lower(trim(s))
}

/// Deactivation is confirmed by typing the workspace's name or (when it has one) its
/// slug, ASCII case and surrounding spaces aside; an empty entry confirms nothing.
pub fn deactivation_confirmed(typed: &str, workspace_name: &str, workspace_slug: &str) -> (b: bool)
    ensures
        b == (folded(typed@).len() > 0 && (folded(typed@) == folded(workspace_name@) || (folded(
            workspace_slug@,
        ).len() > 0 && folded(typed@) == folded(workspace_slug@)))),
{
    let t = lower_chars(&trim_chars(typed));
    if t.len() == 0 {
        return false;
    }
    let n = lower_chars(&trim_chars(workspace_name));
    let sl = lower_chars(&trim_chars(workspace_slug));
    vec_eq(&t, &n) || (sl.len() > 0 && vec_eq(&t, &sl))
}

/// An invitation names an email (trimmed, not empty) and a role offered for invites, in a
/// workspace; the checks give the email to send to, or the message to show.
pub fn invite_form_submission(
    slug: &str,
    email: &str,
    role_id: &str,
    role_options: &Vec<WorkspaceRoleOption>,
) -> (r: Result<String, String>)
    ensures
        (slug@.len() == 0 || trim(email@).len() == 0 || role_id@.len() == 0) ==> (r matches Err(m)
            && m@ == "email and role are required"@),
        !(slug@.len() == 0 || trim(email@).len() == 0 || role_id@.len() == 0) && !(exists|k: int|
            0 <= k < role_options@.len() && (#[trigger] role_options@[k]).role_id@ == role_id@) ==> (r matches Err(m)
            && m@ == "role is not available for invite"@),
        !(slug@.len() == 0 || trim(email@).len() == 0 || role_id@.len() == 0) && (exists|k: int|
            0 <= k < role_options@.len() && (#[trigger] role_options@[k]).role_id@ == role_id@) ==> (r matches Ok(e)
            && e@ == trim(email@)),
{
    let e = trim_str(email);
    if slug.unicode_len() == 0 || e.unicode_len() == 0 || role_id.unicode_len() == 0 {
        return Err(owned("email and role are required"));
    }
    let mut k: usize = 0;
    while k < role_options.len()
        invariant
            k <= role_options@.len(),
            e@ == trim(email@),
            slug@.len() > 0,
            e@.len() > 0,
            role_id@.len() > 0,
            forall|j: int| 0 <= j < k ==> (#[trigger] role_options@[j]).role_id@ != role_id@,
        decreases role_options.len() - k,
    {
        if str_eq(role_options[k].role_id.as_str(), role_id) {
            return Ok(e);
        }
        k = k + 1;
    }
    Err(owned("role is not available for invite"))
}

/// Renaming a workspace: the trimmed name is required (and a workspace); the same name as
/// before (trimmed) saves nothing; otherwise the trimmed name is saved.
pub fn workspace_name_submission(slug: &str, name: &str, original_name: &str) -> (r: Result<Option<String>, String>)
    ensures
        (slug@.len() == 0 || trim(name@).len() == 0) ==> (r matches Err(m) && m@ == "workspace name is required"@),
        !(slug@.len() == 0 || trim(name@).len() == 0) && trim(name@) == trim(original_name@) ==> r matches Ok(None),
        !(slug@.len() == 0 || trim(name@).len() == 0) && trim(name@) != trim(original_name@) ==> (r matches Ok(Some(n))
            && n@ == trim(name@)),
{
    let n = trim_str(name);
    if slug.unicode_len() == 0 || n.unicode_len() == 0 {
        return Err(owned("workspace name is required"));
    }
    let o = trim_str(original_name);
    if str_eq(n.as_str(), o.as_str()) {
        return Ok(None);
    }
    Ok(Some(n))
}

/// The permission options offered in the role editor: the labelled options when the
/// catalog came with any, else one option per permission id, labelled from the id and
/// grouped under `Catalog`.
pub fn permission_options(options: Vec<PermissionOption>, ids: &Vec<String>) -> (r: Vec<PermissionOption>)
    ensures
        options@.len() > 0 ==> r@ == options@,
        options@.len() == 0 ==> r@.len() == ids@.len() && forall|i: int|
            0 <= i < ids@.len() ==> (#[trigger] r@[i]).id@ == ids@[i]@
                && r@[i].label@ == permission_label(ids@[i]@) && r@[i].group@ == "Catalog"@,
{
    if options.len() > 0 {
        return options;
    }
    let mut r: Vec<PermissionOption> = Vec::new();
    let mut i: usize = 0;
    while i < ids.len()
        invariant
            i <= ids@.len(),
            r@.len() == i,
            forall|j: int|
                0 <= j < i ==> (#[trigger] r@[j]).id@ == ids@[j]@
                    && r@[j].label@ == permission_label(ids@[j]@) && r@[j].group@ == "Catalog"@,
        decreases ids.len() - i,
    {
        let id = ids[i].clone();
        let label = humanize_permission_id(id.as_str());
        r.push(PermissionOption { id, label, group: owned("Catalog") });
        i = i + 1;
    }
    r
}

/// How many memberships are active with role `role_id`.
pub open spec fn active_role_count(memberships: Seq<MembershipSummary>, role_id: Seq<char>) -> nat
    decreases memberships.len(),
{
    if memberships.len() == 0 {
        0
    } else {
        active_role_count(memberships.drop_last(), role_id) + if memberships.last().status@ == "active"@
            && memberships.last().role_id@ == role_id {
            1nat
        } else {
            0nat
        }
    }
}

/// The number of active members holding role `role_id`, as the role list shows it.
pub fn active_member_count(memberships: &Vec<MembershipSummary>, role_id: &str) -> (n: usize)
    ensures
        n == active_role_count(memberships@, role_id@),
{
    let mut n: usize = 0;
    let mut i: usize = 0;
    while i < memberships.len()
        invariant
            i <= memberships@.len(),
            n <= i,
            n == active_role_count(memberships@.take(i as int), role_id@),
        decreases memberships.len() - i,
    {
        assert(memberships@.take(i + 1).drop_last() =~= memberships@.take(i as int));
        let m = &memberships[i];
        if str_eq(m.status.as_str(), "active") && str_eq(m.role_id.as_str(), role_id) {
            n = n + 1;
        }
        i = i + 1;
    }
    assert(memberships@.take(memberships@.len() as int) =~= memberships@);
    n
}

} // verus!
