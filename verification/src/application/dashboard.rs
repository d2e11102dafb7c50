//! The parts of the board snapshot that are computed rather than loaded: the greeting,
//! the workspace label, the security score, the widget catalog and which saved queries
//! the board runs.

use vstd::prelude::*;
use crate::contracts::dashboard::{
    widget_allows_multiple, widget_catalog, widget_default_span, widget_description,
    widget_is_query_bound, widget_label, BoardNode, DashboardCatalogItem, DashboardWidgetKind,
    HttpDisplayMode, HttpQueryResult, migrated_layout, nodes_have_from, replaced_from,
    DashboardLayout, DashboardNoteUpdate,
};
use crate::auth_product::config::{config_bool_value, flag_setting, raw_view};
use crate::error::AuthStackError;
use crate::contracts::admin::AuditEventSummary;
use crate::contracts::auth::AccountSessionSummary;
use crate::contracts::dashboard::{DashboardNotification, DashboardSnapshot};
use crate::contracts::organization::OrganizationSummary;
use crate::contracts::resources::{QuerySummary, ResourceSummary};
use crate::contracts::vault::SecretSummary;
use crate::contracts::resources::{query_class, QueryConfig, QueryExecutionClass, QueryResult, ResourceKind};
use crate::text::{
    chars_of, concat2, contains_seq, contains_vec, index_of, index_of_vec, is_blank,
    is_blank_str, lower_chars, owned, slice_vec, str_eq, string_of, to_lower,
};

verus! {

/// The name to greet: the part of the email before its first `@` when that is not empty,
/// else `there`.
pub open spec fn greeting_of(email: Option<Seq<char>>) -> Seq<char> {
    match email {
        Some(e) => {
            let k = index_of(e, '@');
            let local = if k >= 0 {
                e.subrange(0, k)
            } else {
                e
            };
            if local.len() > 0 {
                local
            } else {
                "there"@
            }
        },
        None => "there"@,
    }
}

pub open spec fn opt_view(o: Option<String>) -> Option<Seq<char>> {
    match o {
        Some(s) => Some(s@),
        None => None,
    }
}

/// The name the board greets the user by.
pub fn greeting_name(email: &Option<String>) -> (name: String)
    ensures
        name@ == greeting_of(opt_view(*email)),
{
    match email {
        Some(e) => {
            let v = chars_of(e.as_str());
            let n = v.len();
            let local = match index_of_vec(&v, '@') {
                Some(k) => slice_vec(&v, 0, k),
                None => slice_vec(&v, 0, n),
            };
            proof {
                assert(v@.subrange(0, n as int) =~= v@);
            }
            if local.len() > 0 {
                string_of(&local)
            } else {
                owned("there")
            }
        },
        None => owned("there"),
    }
}

/// A workspace is selected: the session's tenant id is present and not blank.
pub fn has_tenant(tenant_id: &Option<String>) -> (b: bool)
    ensures
        b == match tenant_id {
            Some(t) => !is_blank(t@),
            None => false,
        },
{
    match tenant_id {
        Some(t) => !is_blank_str(t.as_str()),
        None => false,
    }
}

/// The label of a workspace: its name, with ` · /org/<slug>` when it has a slug.
pub open spec fn workspace_label(o: OrganizationSummary) -> Seq<char> {
    if o.slug@.len() == 0 {
        o.name@
    } else {
        o.name@ + " · /org/"@ + o.slug@
    }
}

/// The first organization at or after `i` whose id is `id`, or -1.
pub open spec fn org_index(orgs: Seq<OrganizationSummary>, id: Seq<char>, i: int) -> int
    decreases orgs.len() - i,
{
    if i < 0 || i >= orgs.len() {
        -1
    } else if orgs[i].organization_id@ == id {
        i
    } else {
        org_index(orgs, id, i + 1)
    }
}

/// How the selected workspace is labelled: by the label of the organization with that
/// id, else by the raw id; nothing when no workspace is selected.
pub open spec fn tenant_label_of(tenant_id: Option<Seq<char>>, orgs: Seq<OrganizationSummary>) -> Option<Seq<char>> {
    match tenant_id {
        None => None,
        Some(t) => {
            let k = org_index(orgs, t, 0);
            if k >= 0 {
                Some(workspace_label(orgs[k]))
            } else {
                Some(t)
            }
        },
    }
}

/// The label of the selected workspace, preferring its name over the raw id.
pub fn tenant_label(tenant_id: &Option<String>, organizations: &[OrganizationSummary]) -> (label: Option<String>)
    ensures
        opt_view(label) == tenant_label_of(opt_view(*tenant_id), organizations@),
{
    let t = match tenant_id {
        Some(t) => t,
        None => {
            return None;
        },
    };
    let mut i: usize = 0;
    while i < organizations.len()
        invariant
            opt_view(*tenant_id) == Some(t@),
            i <= organizations@.len(),
            org_index(organizations@, t@, 0) == org_index(organizations@, t@, i as int),
        decreases organizations.len() - i,
    {
        let o = &organizations[i];
        if str_eq(o.organization_id.as_str(), t.as_str()) {
            assert(org_index(organizations@, t@, i as int) == i);
            if o.slug.as_str().unicode_len() == 0 {
                return Some(o.name.clone());
            }
            let a = concat2(o.name.as_str(), " · /org/");
            return Some(concat2(a.as_str(), o.slug.as_str()));
        }
        i = i + 1;
    }
    Some(t.clone())
}

/// `a + b`, but never above 255.
pub open spec fn sat_add(a: int, b: int) -> int {
    if a + b > 255 {
        255
    } else {
        a + b
    }
}

/// The account's security score out of 100: 35 to start, 35 more with an authenticator
/// app, 15 with recovery codes left, 15 with at most three signed-in sessions and 10 when
/// the assurance mentions `aal2` or `2` (any case).
pub open spec fn security_score_of(
    totp_enrolled: bool,
    recovery_codes_remaining: u32,
    session_count: nat,
    assurance: Seq<char>,
) -> int {
    let s1 = if totp_enrolled {
        sat_add(35, 35)
    } else {
        35
    };
    let s2 = if recovery_codes_remaining > 0 {
        sat_add(s1, 15)
    } else {
        s1
    };
    let s3 = if session_count <= 3 {
        sat_add(s2, 15)
    } else {
        s2
    };
    let lower = to_lower(assurance);
    let s4 = if contains_seq(lower, "aal2"@) || contains_seq(lower, "2"@) {
        sat_add(s3, 10)
    } else {
        s3
    };
    if s4 > 100 {
        100
    } else {
        s4
    }
}

/// The account's security score shown on the board.
pub fn security_score(totp_enrolled: bool, recovery_codes_remaining: u32, session_count: usize, assurance: &str) -> (score: u8)
    ensures
        score == security_score_of(totp_enrolled, recovery_codes_remaining, session_count as nat, assurance@),
{
    let mut score: u8 = 35;
    if totp_enrolled {
        score = score.saturating_add(35);
    }
    if recovery_codes_remaining > 0 {
        score = score.saturating_add(15);
    }
    if session_count <= 3 {
        score = score.saturating_add(15);
    }
    let lower = lower_chars(&chars_of(assurance));
    if contains_vec(&lower, "aal2") || contains_vec(&lower, "2") {
        score = score.saturating_add(10);
    }
    if score > 100 {
        score = 100;
    }
    score
}

/// A widget of this kind is somewhere on the board rooted at `n`.
pub open spec fn kind_in_node(n: BoardNode, kind: DashboardWidgetKind) -> bool
    decreases n, 0int,
{
    match n {
        BoardNode::Widget { kind: k, .. } => k == kind,
        BoardNode::Container { children, .. } => kind_in_nodes(children@, kind, 0),
    }
}

/// A widget of this kind is somewhere on the boards rooted at `s[i..]`.
pub open spec fn kind_in_nodes(s: Seq<BoardNode>, kind: DashboardWidgetKind, i: int) -> bool
    decreases s, s.len() - i,
{
    if i < 0 || i >= s.len() {
        false
    } else {
        kind_in_node(s[i], kind) || kind_in_nodes(s, kind, i + 1)
    }
}

fn kind_in_node_exec(n: &BoardNode, kind: DashboardWidgetKind) -> (b: bool)
    ensures
        b == kind_in_node(*n, kind),
    decreases n,
{
    match n {
        BoardNode::Widget { kind: k, .. } => *k == kind,
        BoardNode::Container { children, .. } => {
            let mut i: usize = 0;
            while i < children.len()
                invariant
                    i <= children@.len(),
                    n is Container,
                    n->children == *children,
                    kind_in_nodes(children@, kind, 0) == kind_in_nodes(children@, kind, i as int),
                decreases children.len() - i,
            {
                proof {
                    vstd::std_specs::vec::axiom_vec_index_decreases(*children, i as int);
                    assert(decreases_to!(*n => n->children));
                }
                if kind_in_node_exec(&children[i], kind) {
                    return true;
                }
                i = i + 1;
            }
            false
        },
    }
}

/// Whether a widget of this kind is already on the board.
pub fn kind_on_board(nodes: &Vec<BoardNode>, kind: DashboardWidgetKind) -> (b: bool)
    ensures
        b == kind_in_nodes(nodes@, kind, 0),
{
    let mut i: usize = 0;
    while i < nodes.len()
        invariant
            i <= nodes@.len(),
            kind_in_nodes(nodes@, kind, 0) == kind_in_nodes(nodes@, kind, i as int),
        decreases nodes.len() - i,
    {
        if kind_in_node_exec(&nodes[i], kind) {
            return true;
        }
        i = i + 1;
    }
    false
}

/// The picker entry for a widget kind on a board: its catalog texts and span, and
/// whether it is already added (a single-instance kind that is on the board).
pub open spec fn catalog_entry(item: DashboardCatalogItem, kind: DashboardWidgetKind, nodes: Seq<BoardNode>) -> bool {
    &&& item.kind == kind
    &&& item.label@ == widget_label(kind)
    &&& item.description@ == widget_description(kind)
    &&& item.default_span == widget_default_span(kind)
    &&& item.allows_multiple == widget_allows_multiple(kind)
    &&& item.already_added == (!widget_allows_multiple(kind) && kind_in_nodes(nodes, kind, 0))
}

/// The widget picker for a board: one entry per catalog kind, in catalog order.
pub fn dashboard_catalog(nodes: &Vec<BoardNode>) -> (items: Vec<DashboardCatalogItem>)
    ensures
        items@.len() == widget_catalog().len(),
        forall|i: int| 0 <= i < items@.len() ==> catalog_entry(#[trigger] items@[i], widget_catalog()[i], nodes@),
{
    let kinds = DashboardWidgetKind::catalog();
    let mut items: Vec<DashboardCatalogItem> = Vec::new();
    let mut i: usize = 0;
    while i < kinds.len()
        invariant
            kinds@ == widget_catalog(),
            i <= kinds@.len(),
            items@.len() == i,
            forall|j: int| 0 <= j < i ==> catalog_entry(#[trigger] items@[j], widget_catalog()[j], nodes@),
        decreases kinds.len() - i,
    {
        let kind = kinds[i];
        let allows = kind.allows_multiple();
        let placed = kind_on_board(nodes, kind);
        items.push(
            DashboardCatalogItem {
                kind,
                label: owned(kind.label()),
                description: owned(kind.description()),
                default_span: kind.default_span(),
                already_added: !allows && placed,
                allows_multiple: allows,
            },
        );
        i = i + 1;
    }
    items
}

/// The query ids collected after visiting `n`, starting from `out`: a query-bound widget
/// with a source adds its source id unless it is already there; containers visit their
/// children in order.
pub open spec fn collect_node(out: Seq<Seq<char>>, n: BoardNode) -> Seq<Seq<char>>
    decreases n, 0int,
{
    match n {
        BoardNode::Widget { kind, source_id, .. } => match source_id {
            Some(id) => if widget_is_query_bound(kind) && !out.contains(id@) {
                out.push(id@)
            } else {
                out
            },
            None => out,
        },
        BoardNode::Container { children, .. } => collect_from(out, children@, 0),
    }
}

/// The query ids collected after visiting `s[i..]` in order, starting from `out`.
pub open spec fn collect_from(out: Seq<Seq<char>>, s: Seq<BoardNode>, i: int) -> Seq<Seq<char>>
    decreases s, s.len() - i,
{
    if i < 0 || i >= s.len() {
        out
    } else {
        collect_from(collect_node(out, s[i]), s, i + 1)
    }
}

pub open spec fn string_views(v: Seq<String>) -> Seq<Seq<char>> {
    v.map_values(|s: String| s@)
}

fn contains_string(out: &Vec<String>, id: &str) -> (b: bool)
    ensures
        b == string_views(out@).contains(id@),
{
    let mut k: usize = 0;
    while k < out.len()
        invariant
            k <= out@.len(),
            forall|j: int| 0 <= j < k ==> (#[trigger] out@[j])@ != id@,
        decreases out.len() - k,
    {
        if str_eq(out[k].as_str(), id) {
            assert(string_views(out@)[k as int] == id@);
            return true;
        }
        k = k + 1;
    }
    proof {
        if string_views(out@).contains(id@) {
            let j = choose|j: int| 0 <= j < string_views(out@).len() && string_views(out@)[j] == id@;
            assert(out@[j]@ == id@);
        }
    }
    false
}

fn collect_node_exec(n: &BoardNode, out: &mut Vec<String>)
    ensures
        string_views(final(out)@) == collect_node(string_views(old(out)@), *n),
    decreases n,
{
    match n {
        BoardNode::Widget { kind, source_id, .. } => match source_id {
            Some(id) => {
                if kind.is_query_bound() && !contains_string(out, id.as_str()) {
                    let ghost before = out@;
                    out.push(id.clone());
                    assert(string_views(out@) =~= string_views(before).push(id@));
                }
            },
            None => {},
        },
        BoardNode::Container { children, .. } => {
            let mut i: usize = 0;
            while i < children.len()
                invariant
                    i <= children@.len(),
                    n is Container,
                    n->children == *children,
                    collect_from(string_views(old(out)@), children@, 0) == collect_from(
                        string_views(out@),
                        children@,
                        i as int,
                    ),
                decreases children.len() - i,
            {
                proof {
                    vstd::std_specs::vec::axiom_vec_index_decreases(*children, i as int);
                    assert(decreases_to!(*n => n->children));
                }
                collect_node_exec(&children[i], out);
                i = i + 1;
            }
        },
    }
}

/// How many bound queries the board runs at most.
pub const MAX_BOARD_QUERIES: usize = 8;

/// The saved queries the board runs: the sources of its query-bound widgets in board
/// order, each once, at most eight.
pub open spec fn board_query_ids(nodes: Seq<BoardNode>) -> Seq<Seq<char>> {
    let all = collect_from(Seq::empty(), nodes, 0);
    if all.len() > MAX_BOARD_QUERIES {
        all.take(MAX_BOARD_QUERIES as int)
    } else {
        all
    }
}

/// The saved queries referenced by the board's query-bound widgets.
pub fn bound_query_ids(nodes: &Vec<BoardNode>) -> (ids: Vec<String>)
    ensures
        string_views(ids@) == board_query_ids(nodes@),
{
    let mut out: Vec<String> = Vec::new();
    let mut i: usize = 0;
    assert(string_views(out@) =~= Seq::<Seq<char>>::empty());
    while i < nodes.len()
        invariant
            i <= nodes@.len(),
            collect_from(Seq::empty(), nodes@, 0) == collect_from(string_views(out@), nodes@, i as int),
        decreases nodes.len() - i,
    {
        collect_node_exec(&nodes[i], &mut out);
        i = i + 1;
    }
    if out.len() > MAX_BOARD_QUERIES {
        let ghost before = out@;
        out.truncate(MAX_BOARD_QUERIES);
        assert(string_views(out@) =~= string_views(before).take(MAX_BOARD_QUERIES as int));
    }
    out
}

/// The answer for each bound query when its connectors need vault secrets the member
/// may not reveal: a failed REST result saying so.
pub fn reveal_required_results(query_ids: &Vec<String>) -> (results: Vec<QueryResult>)
    ensures
        results@.len() == query_ids@.len(),
        forall|i: int|
            0 <= i < results@.len() ==> {
                &&& (#[trigger] results@[i]).query_id@ == query_ids@[i]@
                &&& !results@[i].ok
                &&& results@[i].error matches Some(e) && e@
                    == "vault.reveal permission is required for connector secrets"@
                &&& results@[i].meta.resource_kind == ResourceKind::Rest
            },
{
    let mut results: Vec<QueryResult> = Vec::new();
    let mut i: usize = 0;
    while i < query_ids.len()
        invariant
            i <= query_ids@.len(),
            results@.len() == i,
            forall|j: int|
                0 <= j < i ==> {
                    &&& (#[trigger] results@[j]).query_id@ == query_ids@[j]@
                    &&& !results@[j].ok
                    &&& results@[j].error matches Some(e) && e@
                        == "vault.reveal permission is required for connector secrets"@
                    &&& results@[j].meta.resource_kind == ResourceKind::Rest
                },
        decreases query_ids.len() - i,
    {
        let r = QueryResult::err(
            query_ids[i].as_str(),
            ResourceKind::Rest,
            "vault.reveal permission is required for connector secrets",
        );
        results.push(r);
        i = i + 1;
    }
    results
}

/// The board's HTTP-panel view of a query result, shown as a list.
pub fn http_result_of(result: &QueryResult) -> (r: HttpQueryResult)
    ensures
        r.source_id == result.query_id,
        r.ok == result.ok,
        r.error == result.error,
        r.data_json == result.data_json,
        r.display_mode == HttpDisplayMode::List,
{
    HttpQueryResult {
        source_id: result.query_id.clone(),
        ok: result.ok,
        error: match &result.error {
            Some(e) => Some(e.clone()),
            None => None,
        },
        data_json: result.data_json.clone(),
        display_mode: HttpDisplayMode::List,
    }
}


/// The security score always lies between 35 and 100.
pub proof fn lemma_security_score_range(
    totp_enrolled: bool,
    recovery_codes_remaining: u32,
    session_count: nat,
    assurance: Seq<char>,
)
    ensures
        35 <= security_score_of(totp_enrolled, recovery_codes_remaining, session_count, assurance) <= 100,
{
}

/// A sequence of ids without repeats.
pub open spec fn no_repeats(s: Seq<Seq<char>>) -> bool {
    forall|i: int, j: int| 0 <= i < j < s.len() ==> s[i] != s[j]
}

proof fn lemma_collect_no_repeats_node(out: Seq<Seq<char>>, n: BoardNode)
    requires
        no_repeats(out),
    ensures
        no_repeats(collect_node(out, n)),
    decreases n, 0int,
{
    match n {
        BoardNode::Widget { kind, source_id, .. } => {
            if let Some(id) = source_id {
                if widget_is_query_bound(kind) && !out.contains(id@) {
                    let r = out.push(id@);
                    assert forall|i: int, j: int| 0 <= i < j < r.len() implies r[i] != r[j] by {
                        if j == out.len() {
                            assert(r[i] == out[i]);
                        }
                    }
                }
            }
        },
        BoardNode::Container { children, .. } => {
            lemma_collect_no_repeats_from(out, children@, 0);
        },
    }
}

proof fn lemma_collect_no_repeats_from(out: Seq<Seq<char>>, s: Seq<BoardNode>, i: int)
    requires
        no_repeats(out),
    ensures
        no_repeats(collect_from(out, s, i)),
    decreases s, s.len() - i,
{
    if 0 <= i < s.len() {
        lemma_collect_no_repeats_node(out, s[i]);
        lemma_collect_no_repeats_from(collect_node(out, s[i]), s, i + 1);
    }
}

/// The board runs each saved query at most once, and at most eight of them.
pub proof fn lemma_board_queries_bounded(nodes: Seq<BoardNode>)
    ensures
        no_repeats(board_query_ids(nodes)),
        board_query_ids(nodes).len() <= MAX_BOARD_QUERIES,
{
    lemma_collect_no_repeats_from(Seq::empty(), nodes, 0);
}


/// The longest note a notes tile holds, in characters.
pub const MAX_NOTE_CHARS: usize = 2000;

/// A note update names a widget (not blank) and holds at most 2000 characters.
pub fn validate_note_update(request: &DashboardNoteUpdate) -> (r: Result<(), AuthStackError>)
    ensures
        is_blank(request.widget_id@) ==> (r matches Err(AuthStackError::Validation { message: m })
            && m@ == "widget_id is required"@),
        !is_blank(request.widget_id@) && request.text@.len() > MAX_NOTE_CHARS ==> (r matches Err(
            AuthStackError::Validation { message: m },
        ) && m@ == "note is too long"@),
        !is_blank(request.widget_id@) && request.text@.len() <= MAX_NOTE_CHARS ==> r is Ok,
{
    if is_blank_str(request.widget_id.as_str()) {
        return Err(AuthStackError::validation("widget_id is required"));
    }
    if request.text.unicode_len() > MAX_NOTE_CHARS {
        return Err(AuthStackError::validation("note is too long"));
    }
    Ok(())
}

/// A notes tile.
pub open spec fn is_notes_widget(n: BoardNode) -> bool {
    n matches BoardNode::Widget { kind: DashboardWidgetKind::Notes, .. }
}

/// The node with its note set to `text` (a widget; a container is left as it is).
pub open spec fn with_note(n: BoardNode, text: String) -> BoardNode {
    match n {
        BoardNode::Widget { id, kind, col_span, note_text: _, source_id, bind, http_mode } => BoardNode::Widget {
            id,
            kind,
            col_span,
            note_text: Some(text),
            source_id,
            bind,
            http_mode,
        },
        BoardNode::Container { .. } => n,
    }
}

/// Writes `text` as the note of the node `widget_id` names, which must be a notes tile:
/// no node with that id is `not_found`; another kind of node is a validation error (the
/// layout is then not to be saved). On success the layout is the old one with that node's
/// note replaced, and nothing else changes.
pub fn set_widget_note(layout: &mut DashboardLayout, widget_id: &str, text: String) -> (r: Result<(), AuthStackError>)
    ensures
        !nodes_have_from(old(layout).nodes@, widget_id@, 0) ==> (r matches Err(
            AuthStackError::NotFound { message: m },
        ) && m@ == "widget not found"@ && final(layout).nodes@ == old(layout).nodes@),
        r is Ok ==> exists|found: BoardNode|
            is_notes_widget(found) && #[trigger] replaced_from(
                old(layout).nodes@,
                final(layout).nodes@,
                widget_id@,
                0,
                found,
                with_note(found, text),
            ),
        (r matches Err(AuthStackError::Validation { message: m })) ==> exists|found: BoardNode|
            !is_notes_widget(found) && #[trigger] replaced_from(
                old(layout).nodes@,
                final(layout).nodes@,
                widget_id@,
                0,
                found,
                found,
            ),
        nodes_have_from(old(layout).nodes@, widget_id@, 0) ==> (r is Ok || (r matches Err(
            AuthStackError::Validation { message: m },
        ) && m@ == "widget is not a notes tile"@)),
        final(layout).version == old(layout).version,
        final(layout).revision == old(layout).revision,
        final(layout).widgets == old(layout).widgets,
{
    let ghost t = text;
    match layout.find_widget_mut(widget_id) {
        None => Err(AuthStackError::not_found("widget not found")),
        Some(node) => {
            let ghost found = *node;
            match node {
                BoardNode::Widget { kind: DashboardWidgetKind::Notes, note_text, .. } => {
                    *note_text = Some(text);
                    assert(is_notes_widget(found));
                    assert(*node == with_note(found, t));
                    Ok(())
                },
                _ => {
                    assert(!is_notes_widget(found));
                    Err(AuthStackError::validation("widget is not a notes tile"))
                },
            }
        },
    }
}

/// The stored revision a read-modify-write must still find when it saves: none for a
/// layout that was never stored (revision zero or less).
pub fn revision_precondition(revision: i64) -> (expected: Option<i64>)
    ensures
        revision <= 0 ==> expected is None,
        revision > 0 ==> expected == Some(revision),
{
    if revision <= 0 {
        None
    } else {
        Some(revision)
    }
}

/// Prepares a layout posted by a client for saving: it is brought up to v2, its legacy
/// widget list dropped and its version set to 2. The revision the save must still find is
/// the client's; none when neither the client nor the store has one; a client that sent
/// none for a stored board must reload first.
pub fn prepare_layout_save(layout: &mut DashboardLayout, stored_revision: i64) -> (r: Result<Option<i64>, AuthStackError>)
    ensures
        exists|migrated: DashboardLayout|
            #[trigger] migrated_layout(*old(layout), migrated) && final(layout).nodes == migrated.nodes,
        final(layout).widgets@.len() == 0,
        final(layout).version == 2,
        final(layout).revision == old(layout).revision,
        (final(layout).revision == 0 && stored_revision == 0) ==> r == Ok::<Option<i64>, AuthStackError>(None),
        !(final(layout).revision == 0 && stored_revision == 0) && final(layout).revision <= 0 ==> (r matches Err(
            AuthStackError::Conflict { message: m },
        ) && m@ == "the board revision is missing; reload the board and reapply your edit"@),
        final(layout).revision > 0 ==> r == Ok::<Option<i64>, AuthStackError>(Some(final(layout).revision)),
{
    layout.migrate_if_needed();
    let ghost migrated = *layout;
    layout.widgets.clear();
    layout.version = 2;
    let client_revision = layout.revision;
    let expected = if client_revision == 0 && stored_revision == 0 {
        None
    } else if client_revision <= 0 {
        return Err(
            AuthStackError::conflict("the board revision is missing; reload the board and reapply your edit"),
        );
    } else {
        Some(client_revision)
    };
    assert(migrated_layout(*old(layout), migrated));
    Ok(expected)
}


/// HTTP dashboard sources may reach private addresses only outside production, and only
/// when the flag setting says so.
pub fn dashboard_http_allow_private(production: bool, raw: &Option<String>) -> (b: bool)
    ensures
        b == (!production && flag_setting(raw_view(*raw), false)),
{
    if production {
        return false;
    }
    config_bool_value(raw, false)
}


/// The permission a query run needs, and whether it needs step-up (AAL2): reads need
/// `query.execute`; mutations need `query.execute_mutation` and step-up.
pub open spec fn query_run_requirement(class: QueryExecutionClass) -> (Seq<char>, bool) {
    match class {
        QueryExecutionClass::Read => ("query.execute"@, false),
        QueryExecutionClass::Mutation => ("query.execute_mutation"@, true),
    }
}

/// What running a saved query of this class requires.
pub fn query_run_permission(class: QueryExecutionClass) -> (r: (&'static str, bool))
    ensures
        (r.0@, r.1) == query_run_requirement(class),
{
    match class {
        QueryExecutionClass::Read => ("query.execute", false),
        QueryExecutionClass::Mutation => ("query.execute_mutation", true),
    }
}

/// Only `GET` REST calls and builtin sources run without step-up; every other saved query
/// (PostgreSQL, gRPC, non-`GET` REST) needs `query.execute_mutation` at AAL2, whatever
/// the client sent.
pub proof fn lemma_only_reads_skip_step_up(config: QueryConfig)
    ensures
        !query_run_requirement(query_class(config)).1 <==> (config matches QueryConfig::Rest { method, .. }
            && method == crate::contracts::resources::HttpMethod::Get || config is Builtin),
{
}


/// What the board snapshot is assembled from: the signed-in session's details and what
/// was loaded for the workspace (sections the member may not see are loaded empty).
pub struct DashboardSnapshotParts {
    pub email: Option<String>,
    pub assurance: String,
    pub tenant_id: Option<String>,
    pub system_administrator: bool,
    pub sessions: Vec<AccountSessionSummary>,
    pub organizations: Vec<OrganizationSummary>,
    pub totp_enrolled: bool,
    pub recovery_codes_remaining: u32,
    pub activity: Vec<AuditEventSummary>,
    pub notifications: Vec<DashboardNotification>,
    pub layout: DashboardLayout,
    pub secrets: Vec<SecretSummary>,
    pub http_enabled: bool,
    pub resources: Vec<ResourceSummary>,
    pub queries: Vec<QuerySummary>,
    pub query_results: Vec<QueryResult>,
    pub grpc_resources_enabled: bool,
    pub load_warnings: Vec<String>,
}

/// The note kept when the activity section could not be loaded.
pub fn activity_warning(error: &AuthStackError) -> (w: String)
    ensures
        w@ == "activity: "@ + crate::error::display_of(*error),
{
    let text = error.to_string();
    concat2("activity: ", text.as_str())
}

/// The board snapshot: the greeting, the workspace label, the counts, the security
/// score, the widget picker for the stored board and the HTTP-panel view of each query
/// result, with everything loaded passed through.
pub fn dashboard_snapshot(parts: DashboardSnapshotParts) -> (snap: DashboardSnapshot)
    ensures
        snap.greeting_name@ == greeting_of(opt_view(parts.email)),
        snap.email == parts.email,
        snap.assurance == parts.assurance,
        snap.has_tenant == match parts.tenant_id {
            Some(t) => !is_blank(t@),
            None => false,
        },
        opt_view(snap.tenant_label) == tenant_label_of(opt_view(parts.tenant_id), parts.organizations@),
        snap.system_administrator == parts.system_administrator,
        snap.organization_count == parts.organizations@.len() as u32,
        snap.active_session_count == parts.sessions@.len() as u32,
        snap.security_score == security_score_of(
            parts.totp_enrolled,
            parts.recovery_codes_remaining,
            parts.sessions@.len(),
            parts.assurance@,
        ),
        snap.totp_enrolled == parts.totp_enrolled,
        snap.recovery_codes_remaining == parts.recovery_codes_remaining,
        snap.sessions == parts.sessions,
        snap.organizations == parts.organizations,
        snap.activity == parts.activity,
        snap.notifications == parts.notifications,
        snap.layout == parts.layout,
        snap.catalog@.len() == widget_catalog().len(),
        forall|i: int| 0 <= i < snap.catalog@.len() ==> catalog_entry(#[trigger] snap.catalog@[i], widget_catalog()[i], parts.layout.nodes@),
        snap.data_sources@.len() == 0,
        snap.secrets == parts.secrets,
        snap.http_results@.len() == parts.query_results@.len(),
        forall|i: int| 0 <= i < snap.http_results@.len() ==> {
            &&& (#[trigger] snap.http_results@[i]).source_id == parts.query_results@[i].query_id
            &&& snap.http_results@[i].ok == parts.query_results@[i].ok
            &&& snap.http_results@[i].error == parts.query_results@[i].error
            &&& snap.http_results@[i].data_json == parts.query_results@[i].data_json
            &&& snap.http_results@[i].display_mode == HttpDisplayMode::List
        },
        snap.http_enabled == parts.http_enabled,
        snap.resources == parts.resources,
        snap.queries == parts.queries,
        snap.query_results == parts.query_results,
        snap.postgres_resources_enabled,
        snap.grpc_resources_enabled == parts.grpc_resources_enabled,
        snap.load_warnings == parts.load_warnings,
{
    let greeting = greeting_name(&parts.email);
    let tenant = has_tenant(&parts.tenant_id);
    let label = tenant_label(&parts.tenant_id, parts.organizations.as_slice());
    let score = security_score(
        parts.totp_enrolled,
        parts.recovery_codes_remaining,
        parts.sessions.len(),
        parts.assurance.as_str(),
    );
    let catalog = dashboard_catalog(&parts.layout.nodes);
    let mut http_results: Vec<HttpQueryResult> = Vec::new();
    let mut i: usize = 0;
    while i < parts.query_results.len()
        invariant
            i <= parts.query_results@.len(),
            http_results@.len() == i,
            forall|j: int| 0 <= j < i ==> {
                &&& (#[trigger] http_results@[j]).source_id == parts.query_results@[j].query_id
                &&& http_results@[j].ok == parts.query_results@[j].ok
                &&& http_results@[j].error == parts.query_results@[j].error
                &&& http_results@[j].data_json == parts.query_results@[j].data_json
                &&& http_results@[j].display_mode == HttpDisplayMode::List
            },
        decreases parts.query_results.len() - i,
    {
        http_results.push(http_result_of(&parts.query_results[i]));
        i = i + 1;
    }
    let organization_count = parts.organizations.len() as u32;
    let active_session_count = parts.sessions.len() as u32;
    DashboardSnapshot {
        greeting_name: greeting,
        email: parts.email,
        assurance: parts.assurance,
        has_tenant: tenant,
        tenant_label: label,
        system_administrator: parts.system_administrator,
        organization_count,
        active_session_count,
        security_score: score,
        totp_enrolled: parts.totp_enrolled,
        recovery_codes_remaining: parts.recovery_codes_remaining,
        sessions: parts.sessions,
        organizations: parts.organizations,
        activity: parts.activity,
        notifications: parts.notifications,
        layout: parts.layout,
        catalog,
        data_sources: Vec::new(),
        secrets: parts.secrets,
        http_results,
        http_enabled: parts.http_enabled,
        resources: parts.resources,
        queries: parts.queries,
        query_results: parts.query_results,
        postgres_resources_enabled: true,
        grpc_resources_enabled: parts.grpc_resources_enabled,
        load_warnings: parts.load_warnings,
    }
}

} // verus!
