//! Dashboard board wire contracts: the widget catalog, the board layout tree and its
//! migration from the flat v1 list, data sources and the board snapshot.

use vstd::prelude::*;
use crate::contracts::admin::AuditEventSummary;
use crate::contracts::auth::AccountSessionSummary;
use crate::contracts::organization::OrganizationSummary;
use crate::contracts::resources::{QueryResult, QuerySummary, ResourceSummary};
use crate::contracts::vault::SecretSummary;
use crate::text::{owned, str_eq};

verus! {

/// Builtin presentation presets (also used as catalog entries).
#[derive(Clone, Copy, Debug, PartialEq, Eq, Structural)]
pub enum DashboardWidgetKind {
    MetricSession,
    MetricDevices,
    MetricOrgs,
    MetricSecurity,
    Activity,
    Notifications,
    Sessions,
    Organizations,
    SecurityPosture,
    Notes,
    Checklist,
    /// Legacy generic HTTP panel (still works; prefer Bound*).
    HttpPanel,
    /// Query-bound metric (scalar / one value from QueryResult).
    BoundMetric,
    /// Query-bound list of rows.
    BoundList,
    /// Query-bound table.
    BoundTable,
}

#[derive(Clone, Copy, Debug, PartialEq, Eq, Structural)]
pub enum BoardContainerKind {
    Row,
    Stack,
}

/// Field map from QueryResult.data_json → widget view model.
/// Paths are simple dotted paths (`stats.count`, `0.name`, empty = root).
#[derive(Clone, Debug, PartialEq, Eq)]
pub struct WidgetBind {
    /// Optional path into data before field maps (e.g. `items`).
    pub items_path: Option<String>,
    /// Metric: path to the primary value (default: root scalar / first row first field).
    pub value_path: Option<String>,
    /// Metric: path to secondary label under the value.
    pub label_path: Option<String>,
    /// List/table row: title field path relative to each item.
    pub title_path: Option<String>,
    /// List row: subtitle field path.
    pub subtitle_path: Option<String>,
    /// List/metric meta line path.
    pub meta_path: Option<String>,
    /// Table: explicit columns as (json_key, header_label). Empty = auto from first row keys.
    pub columns: Vec<(String, String)>,
}

#[derive(Clone, Copy, Debug, PartialEq, Eq, Structural)]
pub enum HttpDisplayMode {
    Metric,
    List,
    Table,
}

/// Layout node: widget tile or container (row/stack).
#[derive(Debug)]
pub enum BoardNode {
    Widget {
        id: String,
        kind: DashboardWidgetKind,
        /// 1–12 columns on the board grid.
        col_span: u8,
        note_text: Option<String>,
        /// Optional HTTP / custom source id.
        source_id: Option<String>,
        bind: WidgetBind,
        http_mode: HttpDisplayMode,
    },
    Container {
        id: String,
        kind: BoardContainerKind,
        col_span: u8,
        children: Vec<BoardNode>,
    },
}

/// Board layout v2 (nodes tree). v1 `widgets` is migrated on load.
#[derive(Debug)]
pub struct DashboardLayout {
    pub version: u8,
    /// Stored revision this layout was read at. Clients echo it back on save so
    /// the server can reject a write that raced another member's edit. Zero
    /// means "not read from the store yet".
    pub revision: i64,
    /// Top-level ordered nodes (widgets and containers).
    pub nodes: Vec<BoardNode>,
    /// Legacy v1 flat list — only present when reading old KV payloads.
    pub widgets: Vec<LegacyDashboardWidget>,
}

/// v1 wire shape kept for migration only.
#[derive(Clone, Debug, PartialEq, Eq)]
pub struct LegacyDashboardWidget {
    pub id: String,
    pub kind: DashboardWidgetKind,
    pub col_span: u8,
    pub note_text: Option<String>,
}

/// Flat widget handle used by some server updates (notes).
#[derive(Clone, Debug, PartialEq, Eq)]
pub struct DashboardWidget {
    pub id: String,
    pub kind: DashboardWidgetKind,
    pub col_span: u8,
    pub note_text: Option<String>,
    pub source_id: Option<String>,
    pub bind: WidgetBind,
    pub http_mode: HttpDisplayMode,
}

#[derive(Clone, Debug, PartialEq, Eq)]
pub struct DashboardNotification {
    pub id: String,
    pub title: String,
    pub body: String,
    pub level: String,
    pub read: bool,
    pub created_at_ms: u64,
}

#[derive(Clone, Copy, Debug, PartialEq, Eq, Structural)]
pub enum DataSourceKind {
    Builtin,
    Http,
}

#[derive(Clone, Copy, Debug, PartialEq, Eq, Structural)]
pub enum BuiltinSourceKey {
    Session,
    Sessions,
    Organizations,
    Audit,
    Mfa,
    Notifications,
    Health,
}

#[derive(Clone, Debug, PartialEq, Eq)]
pub struct HttpHeaderConfig {
    pub name: String,
    /// Literal value, or empty when `secret_id` is set.
    pub value: String,
    pub secret_id: Option<String>,
}

#[derive(Clone, Debug, PartialEq, Eq)]
pub struct DataSource {
    pub id: String,
    pub name: String,
    pub kind: DataSourceKind,
    pub builtin_key: Option<BuiltinSourceKey>,
    pub method: String,
    pub url: String,
    pub headers: Vec<HttpHeaderConfig>,
    pub body_template: Option<String>,
    /// Dot-path into JSON (e.g. `data.items`).
    pub json_path: String,
    /// `one` or `list`.
    pub shape: String,
    pub cache_ttl_seconds: u32,
}

/// Client-safe source summary (no secret values).
#[derive(Clone, Debug, PartialEq, Eq)]
pub struct DataSourceSummary {
    pub id: String,
    pub name: String,
    pub kind: DataSourceKind,
    pub builtin_key: Option<BuiltinSourceKey>,
    pub method: String,
    pub url: String,
    pub json_path: String,
    pub shape: String,
    pub header_names: Vec<String>,
    pub has_secrets: bool,
}

#[derive(Clone, Debug, PartialEq, Eq)]
pub struct DataSourceUpsert {
    pub id: Option<String>,
    pub name: String,
    pub method: String,
    pub url: String,
    pub headers: Vec<HttpHeaderConfig>,
    pub body_template: Option<String>,
    pub json_path: String,
    pub shape: String,
    pub cache_ttl_seconds: u32,
}

#[derive(Clone, Debug, PartialEq, Eq)]
pub struct HttpQueryResult {
    pub source_id: String,
    pub ok: bool,
    pub error: Option<String>,
    /// JSON text payload after path extract (object or array).
    pub data_json: String,
    pub display_mode: HttpDisplayMode,
}

#[derive(Debug)]
pub struct DashboardSnapshot {
    pub greeting_name: String,
    pub email: Option<String>,
    pub assurance: String,
    pub has_tenant: bool,
    pub tenant_label: Option<String>,
    pub system_administrator: bool,
    pub organization_count: u32,
    pub active_session_count: u32,
    pub security_score: u8,
    pub totp_enrolled: bool,
    pub recovery_codes_remaining: u32,
    pub sessions: Vec<AccountSessionSummary>,
    pub organizations: Vec<OrganizationSummary>,
    pub activity: Vec<AuditEventSummary>,
    pub notifications: Vec<DashboardNotification>,
    pub layout: DashboardLayout,
    pub catalog: Vec<DashboardCatalogItem>,
    pub data_sources: Vec<DataSourceSummary>,
    pub secrets: Vec<SecretSummary>,
    pub http_results: Vec<HttpQueryResult>,
    pub http_enabled: bool,
    /// Retool-style resources (connections).
    pub resources: Vec<ResourceSummary>,
    /// Saved queries bound by widgets.
    pub queries: Vec<QuerySummary>,
    /// Results for board-referenced queries.
    pub query_results: Vec<QueryResult>,
    pub postgres_resources_enabled: bool,
    pub grpc_resources_enabled: bool,
    /// Non-fatal section load failures (section still returns empty data).
    pub load_warnings: Vec<String>,
}

#[derive(Clone, Debug, PartialEq, Eq)]
pub struct DashboardCatalogItem {
    pub kind: DashboardWidgetKind,
    pub label: String,
    pub description: String,
    pub default_span: u8,
    pub already_added: bool,
    pub allows_multiple: bool,
}

#[derive(Debug)]
pub struct DashboardLayoutUpdate {
    pub layout: DashboardLayout,
}

#[derive(Clone, Debug, PartialEq, Eq)]
pub struct DashboardNotificationDismiss {
    pub notification_id: String,
}

#[derive(Clone, Debug, PartialEq, Eq)]
pub struct DashboardNoteUpdate {
    pub widget_id: String,
    pub text: String,
}

#[derive(Clone, Debug, PartialEq, Eq)]
pub struct HttpSourceTestRequest {
    pub source_id: String,
}

pub open spec fn widget_key(kind: DashboardWidgetKind) -> Seq<char> {
    match kind {
        DashboardWidgetKind::MetricSession => "metric_session"@,
        DashboardWidgetKind::MetricDevices => "metric_devices"@,
        DashboardWidgetKind::MetricOrgs => "metric_orgs"@,
        DashboardWidgetKind::MetricSecurity => "metric_security"@,
        DashboardWidgetKind::Activity => "activity"@,
        DashboardWidgetKind::Notifications => "notifications"@,
        DashboardWidgetKind::Sessions => "sessions"@,
        DashboardWidgetKind::Organizations => "organizations"@,
        DashboardWidgetKind::SecurityPosture => "security_posture"@,
        DashboardWidgetKind::Notes => "notes"@,
        DashboardWidgetKind::Checklist => "checklist"@,
        DashboardWidgetKind::HttpPanel => "http_panel"@,
        DashboardWidgetKind::BoundMetric => "bound_metric"@,
        DashboardWidgetKind::BoundList => "bound_list"@,
        DashboardWidgetKind::BoundTable => "bound_table"@,
    }
}

pub open spec fn widget_label(kind: DashboardWidgetKind) -> Seq<char> {
    match kind {
        DashboardWidgetKind::MetricSession => "Session status"@,
        DashboardWidgetKind::MetricDevices => "Active devices"@,
        DashboardWidgetKind::MetricOrgs => "Organizations"@,
        DashboardWidgetKind::MetricSecurity => "Security score"@,
        DashboardWidgetKind::Activity => "Recent activity"@,
        DashboardWidgetKind::Notifications => "Notifications"@,
        DashboardWidgetKind::Sessions => "Device sessions"@,
        DashboardWidgetKind::Organizations => "Your workspaces"@,
        DashboardWidgetKind::SecurityPosture => "Security posture"@,
        DashboardWidgetKind::Notes => "Personal note"@,
        DashboardWidgetKind::Checklist => "Getting started"@,
        DashboardWidgetKind::HttpPanel => "HTTP data panel"@,
        DashboardWidgetKind::BoundMetric => "Query metric"@,
        DashboardWidgetKind::BoundList => "Query list"@,
        DashboardWidgetKind::BoundTable => "Query table"@,
    }
}

pub open spec fn widget_description(kind: DashboardWidgetKind) -> Seq<char> {
    match kind {
        DashboardWidgetKind::MetricSession => "Live assurance level for this browser."@,
        DashboardWidgetKind::MetricDevices => "How many sessions are signed in."@,
        DashboardWidgetKind::MetricOrgs => "Tenants you belong to."@,
        DashboardWidgetKind::MetricSecurity => "MFA + session health at a glance."@,
        DashboardWidgetKind::Activity => "Latest tenant audit events."@,
        DashboardWidgetKind::Notifications => "Alerts and product notices."@,
        DashboardWidgetKind::Sessions => "Review and revoke signed-in devices."@,
        DashboardWidgetKind::Organizations => "Switch or open a workspace."@,
        DashboardWidgetKind::SecurityPosture => "MFA, recovery codes, and session risk."@,
        DashboardWidgetKind::Notes => "A private sticky note on your board."@,
        DashboardWidgetKind::Checklist => "Onboarding steps still open."@,
        DashboardWidgetKind::HttpPanel => "Legacy bind to a query (use Query metric/list/table)."@,
        DashboardWidgetKind::BoundMetric => "Show one value from a saved query (field-mapped)."@,
        DashboardWidgetKind::BoundList => "Show rows from a saved query as a list."@,
        DashboardWidgetKind::BoundTable => "Show rows from a saved query as a table."@,
    }
}

/// Default width on a 12-column board: metric tiles take a quarter, panels half.
pub open spec fn widget_default_span(kind: DashboardWidgetKind) -> u8 {
    match kind {
        DashboardWidgetKind::MetricSession | DashboardWidgetKind::MetricDevices
        | DashboardWidgetKind::MetricOrgs | DashboardWidgetKind::MetricSecurity
        | DashboardWidgetKind::BoundMetric => 3,
        _ => 6,
    }
}

/// The widgets a board may hold more than once.
pub open spec fn widget_allows_multiple(kind: DashboardWidgetKind) -> bool {
    kind == DashboardWidgetKind::Notes || widget_is_query_bound(kind)
}

/// The widgets that show the result of a saved query.
pub open spec fn widget_is_query_bound(kind: DashboardWidgetKind) -> bool {
    kind == DashboardWidgetKind::HttpPanel || kind == DashboardWidgetKind::BoundMetric || kind
        == DashboardWidgetKind::BoundList || kind == DashboardWidgetKind::BoundTable
}

pub open spec fn widget_display_mode(kind: DashboardWidgetKind) -> HttpDisplayMode {
    match kind {
        DashboardWidgetKind::BoundMetric => HttpDisplayMode::Metric,
        DashboardWidgetKind::BoundTable => HttpDisplayMode::Table,
        _ => HttpDisplayMode::List,
    }
}

/// The widget picker's catalog, in display order.
pub open spec fn widget_catalog() -> Seq<DashboardWidgetKind> {
    seq![DashboardWidgetKind::MetricSession, DashboardWidgetKind::MetricDevices, DashboardWidgetKind::MetricOrgs, DashboardWidgetKind::MetricSecurity, DashboardWidgetKind::Activity, DashboardWidgetKind::Notifications, DashboardWidgetKind::Sessions, DashboardWidgetKind::Organizations, DashboardWidgetKind::SecurityPosture, DashboardWidgetKind::Notes, DashboardWidgetKind::Checklist, DashboardWidgetKind::BoundMetric, DashboardWidgetKind::BoundList, DashboardWidgetKind::BoundTable, DashboardWidgetKind::HttpPanel]
}

impl DashboardWidgetKind {
    pub fn as_str(&self) -> (s: &'static str)
        ensures
            s@ == widget_key(*self),
    {
        match self {
            DashboardWidgetKind::MetricSession => "metric_session",
            DashboardWidgetKind::MetricDevices => "metric_devices",
            DashboardWidgetKind::MetricOrgs => "metric_orgs",
            DashboardWidgetKind::MetricSecurity => "metric_security",
            DashboardWidgetKind::Activity => "activity",
            DashboardWidgetKind::Notifications => "notifications",
            DashboardWidgetKind::Sessions => "sessions",
            DashboardWidgetKind::Organizations => "organizations",
            DashboardWidgetKind::SecurityPosture => "security_posture",
            DashboardWidgetKind::Notes => "notes",
            DashboardWidgetKind::Checklist => "checklist",
            DashboardWidgetKind::HttpPanel => "http_panel",
            DashboardWidgetKind::BoundMetric => "bound_metric",
            DashboardWidgetKind::BoundList => "bound_list",
            DashboardWidgetKind::BoundTable => "bound_table",
        }
    }

    pub fn label(&self) -> (s: &'static str)
        ensures
            s@ == widget_label(*self),
    {
        match self {
            DashboardWidgetKind::MetricSession => "Session status",
            DashboardWidgetKind::MetricDevices => "Active devices",
            DashboardWidgetKind::MetricOrgs => "Organizations",
            DashboardWidgetKind::MetricSecurity => "Security score",
            DashboardWidgetKind::Activity => "Recent activity",
            DashboardWidgetKind::Notifications => "Notifications",
            DashboardWidgetKind::Sessions => "Device sessions",
            DashboardWidgetKind::Organizations => "Your workspaces",
            DashboardWidgetKind::SecurityPosture => "Security posture",
            DashboardWidgetKind::Notes => "Personal note",
            DashboardWidgetKind::Checklist => "Getting started",
            DashboardWidgetKind::HttpPanel => "HTTP data panel",
            DashboardWidgetKind::BoundMetric => "Query metric",
            DashboardWidgetKind::BoundList => "Query list",
            DashboardWidgetKind::BoundTable => "Query table",
        }
    }

    pub fn description(&self) -> (s: &'static str)
        ensures
            s@ == widget_description(*self),
    {
        match self {
            DashboardWidgetKind::MetricSession => "Live assurance level for this browser.",
            DashboardWidgetKind::MetricDevices => "How many sessions are signed in.",
            DashboardWidgetKind::MetricOrgs => "Tenants you belong to.",
            DashboardWidgetKind::MetricSecurity => "MFA + session health at a glance.",
            DashboardWidgetKind::Activity => "Latest tenant audit events.",
            DashboardWidgetKind::Notifications => "Alerts and product notices.",
            DashboardWidgetKind::Sessions => "Review and revoke signed-in devices.",
            DashboardWidgetKind::Organizations => "Switch or open a workspace.",
            DashboardWidgetKind::SecurityPosture => "MFA, recovery codes, and session risk.",
            DashboardWidgetKind::Notes => "A private sticky note on your board.",
            DashboardWidgetKind::Checklist => "Onboarding steps still open.",
            DashboardWidgetKind::HttpPanel => "Legacy bind to a query (use Query metric/list/table).",
            DashboardWidgetKind::BoundMetric => "Show one value from a saved query (field-mapped).",
            DashboardWidgetKind::BoundList => "Show rows from a saved query as a list.",
            DashboardWidgetKind::BoundTable => "Show rows from a saved query as a table.",
        }
    }

    /// Default width on a 12-column board.
    pub fn default_span(&self) -> (span: u8)
        ensures
            span == widget_default_span(*self),
    {
        match self {
            DashboardWidgetKind::MetricSession | DashboardWidgetKind::MetricDevices
            | DashboardWidgetKind::MetricOrgs | DashboardWidgetKind::MetricSecurity
            | DashboardWidgetKind::BoundMetric => 3,
            _ => 6,
        }
    }

    pub fn allows_multiple(&self) -> (b: bool)
        ensures
            b == widget_allows_multiple(*self),
    {
        match self {
            DashboardWidgetKind::Notes | DashboardWidgetKind::HttpPanel
            | DashboardWidgetKind::BoundMetric | DashboardWidgetKind::BoundList
            | DashboardWidgetKind::BoundTable => true,
            _ => false,
        }
    }

    pub fn is_query_bound(&self) -> (b: bool)
        ensures
            b == widget_is_query_bound(*self),
    {
        match self {
            DashboardWidgetKind::HttpPanel | DashboardWidgetKind::BoundMetric
            | DashboardWidgetKind::BoundList | DashboardWidgetKind::BoundTable => true,
            _ => false,
        }
    }

    pub fn default_display_mode(&self) -> (mode: HttpDisplayMode)
        ensures
            mode == widget_display_mode(*self),
    {
        match self {
            DashboardWidgetKind::BoundMetric => HttpDisplayMode::Metric,
            DashboardWidgetKind::BoundTable => HttpDisplayMode::Table,
            _ => HttpDisplayMode::List,
        }
    }

    /// The widget picker's catalog, in display order.
    pub fn catalog() -> (kinds: Vec<DashboardWidgetKind>)
        ensures
            kinds@ == widget_catalog(),
    {
        vec![DashboardWidgetKind::MetricSession, DashboardWidgetKind::MetricDevices, DashboardWidgetKind::MetricOrgs, DashboardWidgetKind::MetricSecurity, DashboardWidgetKind::Activity, DashboardWidgetKind::Notifications, DashboardWidgetKind::Sessions, DashboardWidgetKind::Organizations, DashboardWidgetKind::SecurityPosture, DashboardWidgetKind::Notes, DashboardWidgetKind::Checklist, DashboardWidgetKind::BoundMetric, DashboardWidgetKind::BoundList, DashboardWidgetKind::BoundTable, DashboardWidgetKind::HttpPanel]
    }
}

pub open spec fn container_key(kind: BoardContainerKind) -> Seq<char> {
    match kind {
        BoardContainerKind::Row => "row"@,
        BoardContainerKind::Stack => "stack"@,
    }
}

pub open spec fn container_label(kind: BoardContainerKind) -> Seq<char> {
    match kind {
        BoardContainerKind::Row => "Row container"@,
        BoardContainerKind::Stack => "Stack container"@,
    }
}

impl BoardContainerKind {
    pub fn as_str(&self) -> (s: &'static str)
        ensures
            s@ == container_key(*self),
    {
        match self {
            BoardContainerKind::Row => "row",
            BoardContainerKind::Stack => "stack",
        }
    }

    pub fn label(&self) -> (s: &'static str)
        ensures
            s@ == container_label(*self),
    {
        match self {
            BoardContainerKind::Row => "Row container",
            BoardContainerKind::Stack => "Stack container",
        }
    }
}

/// A binding with no field paths and automatic table columns.
pub open spec fn is_default_bind(b: WidgetBind) -> bool {
    &&& b.items_path is None
    &&& b.value_path is None
    &&& b.label_path is None
    &&& b.title_path is None
    &&& b.subtitle_path is None
    &&& b.meta_path is None
    &&& b.columns@.len() == 0
}

impl Default for WidgetBind {
    fn default() -> (b: Self)
        ensures
            is_default_bind(b),
    {
        WidgetBind {
            items_path: None,
            value_path: None,
            label_path: None,
            title_path: None,
            subtitle_path: None,
            meta_path: None,
            columns: Vec::new(),
        }
    }
}

/// The starting binding for a display mode: a metric reads the root value, a list
/// titles rows by `name` with `id` beneath, a table takes its columns from the data.
pub open spec fn bind_for_mode(b: WidgetBind, mode: HttpDisplayMode) -> bool {
    match mode {
        HttpDisplayMode::Metric => {
            &&& b.value_path matches Some(v) && v@.len() == 0
            &&& b.items_path is None
            &&& b.label_path is None
            &&& b.title_path is None
            &&& b.subtitle_path is None
            &&& b.meta_path is None
            &&& b.columns@.len() == 0
        },
        HttpDisplayMode::List => {
            &&& b.title_path matches Some(t) && t@ == "name"@
            &&& b.subtitle_path matches Some(s) && s@ == "id"@
            &&& b.items_path is None
            &&& b.value_path is None
            &&& b.label_path is None
            &&& b.meta_path is None
            &&& b.columns@.len() == 0
        },
        HttpDisplayMode::Table => is_default_bind(b),
    }
}

impl WidgetBind {
    pub fn for_display_mode(mode: &HttpDisplayMode) -> (b: Self)
        ensures
            bind_for_mode(b, *mode),
    {
        match mode {
            HttpDisplayMode::Metric => {
                let mut b = WidgetBind::default();
                b.value_path = Some(String::new());
                b
            },
            HttpDisplayMode::List => {
                let mut b = WidgetBind::default();
                b.title_path = Some(owned("name"));
                b.subtitle_path = Some(owned("id"));
                b
            },
            HttpDisplayMode::Table => WidgetBind::default(),
        }
    }
}

impl Default for HttpDisplayMode {
    fn default() -> (m: Self)
        ensures
            m == HttpDisplayMode::List,
    {
        HttpDisplayMode::List
    }
}

pub open spec fn node_id(n: BoardNode) -> Seq<char> {
    match n {
        BoardNode::Widget { id, .. } => id@,
        BoardNode::Container { id, .. } => id@,
    }
}

pub open spec fn node_span(n: BoardNode) -> u8 {
    match n {
        BoardNode::Widget { col_span, .. } => col_span,
        BoardNode::Container { col_span, .. } => col_span,
    }
}

/// A column span forced into the board's 1–12 range.
pub open spec fn clamp_span(span: u8) -> u8 {
    if span < 1 {
        1
    } else if span > 12 {
        12
    } else {
        span
    }
}

/// `n` with its column span replaced.
pub open spec fn with_span(n: BoardNode, span: u8) -> BoardNode {
    match n {
        BoardNode::Widget { id, kind, col_span, note_text, source_id, bind, http_mode } => {
            BoardNode::Widget { id, kind, col_span: span, note_text, source_id, bind, http_mode }
        },
        BoardNode::Container { id, kind, col_span, children } => {
            BoardNode::Container { id, kind, col_span: span, children }
        },
    }
}

/// The number of nodes in the tree rooted at `n`, `n` included.
pub open spec fn node_count(n: BoardNode) -> nat
    decreases n,
{
    match n {
        BoardNode::Widget { .. } => 1,
        BoardNode::Container { children, .. } => 1 + nodes_count(children@),
    }
}

/// The number of nodes in the trees rooted at the nodes of `s`.
pub open spec fn nodes_count(s: Seq<BoardNode>) -> nat
    decreases s,
{
    if s.len() == 0 {
        0
    } else {
        nodes_count(s.drop_last()) + node_count(s.last())
    }
}

proof fn lemma_nodes_count_prefix(s: Seq<BoardNode>, i: int)
    requires
        0 <= i < s.len(),
    ensures
        nodes_count(s.take(i + 1)) == nodes_count(s.take(i)) + node_count(s[i]),
        nodes_count(s.take(i + 1)) <= nodes_count(s),
    decreases s.len(),
{
    assert(s.take(i + 1).drop_last() =~= s.take(i));
    if i + 1 < s.len() {
        lemma_nodes_count_prefix(s.drop_last(), i);
        assert(s.drop_last().take(i + 1) =~= s.take(i + 1));
    } else {
        assert(s.take(i + 1) =~= s);
    }
}

impl BoardNode {
    pub fn id(&self) -> (id: &str)
        ensures
            id@ == node_id(*self),
    {
        match self {
            BoardNode::Widget { id, .. } => id.as_str(),
            BoardNode::Container { id, .. } => id.as_str(),
        }
    }

    pub fn col_span(&self) -> (span: u8)
        ensures
            span == node_span(*self),
    {
        match self {
            BoardNode::Widget { col_span, .. } => *col_span,
            BoardNode::Container { col_span, .. } => *col_span,
        }
    }

    /// Sets the column span, clamped to 1–12; nothing else changes.
    pub fn set_col_span(&mut self, span: u8)
        ensures
            *final(self) == with_span(*old(self), clamp_span(span)),
    {
        let span = if span < 1 {
            1
        } else if span > 12 {
            12
        } else {
            span
        };
        match self {
            BoardNode::Widget { col_span, .. } => {
                *col_span = span;
            },
            BoardNode::Container { col_span, .. } => {
                *col_span = span;
            },
        }
    }

    /// The number of nodes in this subtree, this node included.
    pub fn count_nodes(&self) -> (n: usize)
        requires
            node_count(*self) <= usize::MAX,
        ensures
            n == node_count(*self),
        decreases self,
    {
        match self {
            BoardNode::Widget { .. } => 1,
            BoardNode::Container { children, .. } => {
                let mut total: usize = 1;
                let mut i: usize = 0;
                while i < children.len()
                    invariant
                        i <= children@.len(),
                        self is Container,
                        self->children == *children,
                        node_count(*self) == 1 + nodes_count(children@),
                        node_count(*self) <= usize::MAX,
                        total == 1 + nodes_count(children@.take(i as int)),
                    decreases children.len() - i,
                {
                    proof {
                        lemma_nodes_count_prefix(children@, i as int);
                        vstd::std_specs::vec::axiom_vec_index_decreases(*children, i as int);
                        assert(decreases_to!(*self => self->children));
                    }
                    let c = children[i].count_nodes();
                    total = total + c;
                    i = i + 1;
                }
                assert(children@.take(children@.len() as int) =~= children@);
                total
            },
        }
    }
}


/// The current board layout version.
pub fn dashboard_layout_version() -> (v: u8)
    ensures
        v == 2,
{
    2
}

/// The default of a flag that is on unless stated otherwise.
pub fn default_true() -> (b: bool)
    ensures
        b,
{
    true
}

/// The default shape of a data source's payload.
pub fn default_shape_list() -> (s: String)
    ensures
        s@ == "list"@,
{
    owned("list")
}

/// The default cache lifetime of a data source, in seconds.
pub fn default_cache_ttl() -> (ttl: u32)
    ensures
        ttl == 30,
{
    30
}

/// The width of a v1 widget on the v2 board: v1 spans 1–4 were quarters of the board,
/// other spans up to 12 were already columns, anything else falls back to the kind's
/// default.
pub open spec fn migrated_span(col_span: u8, kind: DashboardWidgetKind) -> u8 {
    if col_span == 1 {
        3
    } else if col_span == 2 {
        6
    } else if col_span == 3 {
        9
    } else if col_span == 4 {
        12
    } else if 1 <= col_span <= 12 {
        col_span
    } else {
        widget_default_span(kind)
    }
}

/// `n` is the v2 widget that the v1 widget `w` becomes.
pub open spec fn migrated_widget(n: BoardNode, w: LegacyDashboardWidget) -> bool {
    &&& n matches BoardNode::Widget {
        id,
        kind,
        col_span,
        note_text,
        source_id,
        bind,
        http_mode,
    }
    &&& id == w.id
    &&& kind == w.kind
    &&& col_span == migrated_span(w.col_span, w.kind)
    &&& note_text == w.note_text
    &&& source_id is None
    &&& is_default_bind(bind)
    &&& http_mode == HttpDisplayMode::List
}

/// `after` is `before` brought up to v2: a flat v1 widget list with no nodes becomes one
/// top-level widget node per v1 widget, in order, and the list is emptied; otherwise the
/// nodes and widgets stay. The version is at least 2 afterwards; the revision stays.
pub open spec fn migrated_layout(before: DashboardLayout, after: DashboardLayout) -> bool {
    &&& after.revision == before.revision
    &&& before.widgets@.len() > 0 && before.nodes@.len() == 0 ==> {
        &&& after.nodes@.len() == before.widgets@.len()
        &&& forall|i: int|
            0 <= i < before.widgets@.len() ==> migrated_widget(
                #[trigger] after.nodes@[i],
                before.widgets@[i],
            )
        &&& after.widgets@.len() == 0
        &&& after.version == 2
    }
    &&& !(before.widgets@.len() > 0 && before.nodes@.len() == 0) ==> {
        &&& after.nodes == before.nodes
        &&& after.widgets == before.widgets
        &&& after.version == if before.version < 2 {
            2
        } else {
            before.version
        }
    }
}

/// Migrating an already migrated layout changes nothing.
pub proof fn lemma_migration_idempotent(a: DashboardLayout, b: DashboardLayout, c: DashboardLayout)
    requires
        migrated_layout(a, b),
        migrated_layout(b, c),
    ensures
        c.nodes == b.nodes,
        c.widgets == b.widgets,
        c.version == b.version,
        c.revision == b.revision,
{
}

/// v1 widths were quarters of the board and v2 widths are twelfths: a v1 span of k
/// quarters (1 to 4) becomes 3k columns, so a widget keeps its share of the width; a span
/// already given in columns (5 to 12) is kept; every migrated span fits the board.
pub proof fn lemma_migrated_span_keeps_width(col_span: u8, kind: DashboardWidgetKind)
    ensures
        1 <= col_span <= 4 ==> migrated_span(col_span, kind) == 3 * col_span,
        5 <= col_span <= 12 ==> migrated_span(col_span, kind) == col_span,
        1 <= migrated_span(col_span, kind) <= 12,
{
}

/// After migration, the node made from a v1 widget of k quarters (1 to 4) spans 3k of
/// the board's 12 columns.
pub proof fn lemma_migration_keeps_widths(before: DashboardLayout, after: DashboardLayout, i: int)
    requires
        migrated_layout(before, after),
        before.widgets@.len() > 0,
        before.nodes@.len() == 0,
        0 <= i < before.widgets@.len(),
        1 <= before.widgets@[i].col_span <= 4,
    ensures
        node_span(after.nodes@[i]) == 3 * before.widgets@[i].col_span,
{
    assert(migrated_widget(after.nodes@[i], before.widgets@[i]));
}

/// A column span set on a node is always within the board's 1–12 columns.
pub proof fn lemma_set_span_in_range(n: BoardNode, span: u8)
    ensures
        1 <= node_span(with_span(n, clamp_span(span))) <= 12,
{
}

fn migrate_span(col_span: u8, kind: &DashboardWidgetKind) -> (span: u8)
    ensures
        span == migrated_span(col_span, *kind),
{
    if col_span == 1 {
        3
    } else if col_span == 2 {
        6
    } else if col_span == 3 {
        9
    } else if col_span == 4 {
        12
    } else if 1 <= col_span && col_span <= 12 {
        col_span
    } else {
        kind.default_span()
    }
}

impl DashboardLayout {
    /// Brings a layout read in the v1 shape up to v2: a flat widget list with no nodes
    /// becomes one top-level widget node per v1 widget, in order; the version is at
    /// least 2 afterwards.
    pub fn migrate_if_needed(&mut self)
        ensures
            migrated_layout(*old(self), *final(self)),
    {
        if self.widgets.len() > 0 && self.nodes.len() == 0 {
            let mut legacy: Vec<LegacyDashboardWidget> = Vec::new();
            std::mem::swap(&mut legacy, &mut self.widgets);
            let ghost orig = legacy@;
            let mut nodes: Vec<BoardNode> = Vec::new();
            let ghost mut done: int = 0;
            while legacy.len() > 0
                invariant
                    0 <= done <= orig.len(),
                    legacy@ == orig.subrange(done, orig.len() as int),
                    nodes@.len() == done,
                    forall|i: int| 0 <= i < done ==> migrated_widget(#[trigger] nodes@[i], orig[i]),
                decreases legacy.len(),
            {
                let w = legacy.remove(0);
                assert(w == orig[done]);
                let span = migrate_span(w.col_span, &w.kind);
                nodes.push(
                    BoardNode::Widget {
                        id: w.id,
                        kind: w.kind,
                        col_span: span,
                        note_text: w.note_text,
                        source_id: None,
                        bind: WidgetBind::default(),
                        http_mode: HttpDisplayMode::List,
                    },
                );
                proof {
                    done = done + 1;
                    assert(legacy@ =~= orig.subrange(done, orig.len() as int));
                }
            }
            self.nodes = nodes;
            self.version = 2;
        }
        if self.version < 2 {
            self.version = 2;
        }
    }

    /// The number of nodes on the board, containers and their contents included.
    pub fn total_nodes(&self) -> (n: usize)
        requires
            nodes_count(self.nodes@) <= usize::MAX,
        ensures
            n == nodes_count(self.nodes@),
    {
        let mut total: usize = 0;
        let mut i: usize = 0;
        while i < self.nodes.len()
            invariant
                i <= self.nodes@.len(),
                nodes_count(self.nodes@) <= usize::MAX,
                total == nodes_count(self.nodes@.take(i as int)),
            decreases self.nodes.len() - i,
        {
            proof {
                lemma_nodes_count_prefix(self.nodes@, i as int);
            }
            let c = self.nodes[i].count_nodes();
            total = total + c;
            i = i + 1;
        }
        assert(self.nodes@.take(self.nodes@.len() as int) =~= self.nodes@);
        total
    }
}

pub open spec fn builtin_source_key(k: BuiltinSourceKey) -> Seq<char> {
    match k {
        BuiltinSourceKey::Session => "session"@,
        BuiltinSourceKey::Sessions => "sessions"@,
        BuiltinSourceKey::Organizations => "organizations"@,
        BuiltinSourceKey::Audit => "audit"@,
        BuiltinSourceKey::Mfa => "mfa"@,
        BuiltinSourceKey::Notifications => "notifications"@,
        BuiltinSourceKey::Health => "health"@,
    }
}

impl BuiltinSourceKey {
    pub fn as_str(&self) -> (s: &'static str)
        ensures
            s@ == builtin_source_key(*self),
    {
        match self {
            BuiltinSourceKey::Session => "session",
            BuiltinSourceKey::Sessions => "sessions",
            BuiltinSourceKey::Organizations => "organizations",
            BuiltinSourceKey::Audit => "audit",
            BuiltinSourceKey::Mfa => "mfa",
            BuiltinSourceKey::Notifications => "notifications",
            BuiltinSourceKey::Health => "health",
        }
    }
}


/// The tree rooted at `n` holds a node with this id.
pub open spec fn node_has(n: BoardNode, id: Seq<char>) -> bool
    decreases n, 0int,
{
    node_id(n) == id || match n {
        BoardNode::Container { children, .. } => nodes_have_from(children@, id, 0),
        BoardNode::Widget { .. } => false,
    }
}

/// One of the trees rooted at `s[i..]` holds a node with this id.
pub open spec fn nodes_have_from(s: Seq<BoardNode>, id: Seq<char>, i: int) -> bool
    decreases s, s.len() - i,
{
    if i < 0 || i >= s.len() {
        false
    } else {
        node_has(s[i], id) || nodes_have_from(s, id, i + 1)
    }
}

/// `news` is `olds` with the first node at or after `olds[i]`, in pre-order, whose id is
/// `id` replaced by `placed`; `found` is that node as it was. Containers on the way keep
/// their id, kind and span.
pub open spec fn replaced_from(
    olds: Seq<BoardNode>,
    news: Seq<BoardNode>,
    id: Seq<char>,
    i: int,
    found: BoardNode,
    placed: BoardNode,
) -> bool
    decreases olds, olds.len() - i,
{
    if i < 0 || i >= olds.len() || news.len() != olds.len() {
        false
    } else if node_id(olds[i]) == id {
        found == olds[i] && news == olds.update(i, placed)
    } else if node_has(olds[i], id) {
        match (olds[i], news[i]) {
            (
                BoardNode::Container { id: a, kind: k, col_span: c, children: oc },
                BoardNode::Container { id: b, kind: k2, col_span: c2, children: nc },
            ) => a == b && k == k2 && c == c2 && news == olds.update(i, news[i]) && replaced_from(
                oc@,
                nc@,
                id,
                0,
                found,
                placed,
            ),
            _ => false,
        }
    } else {
        news[i] == olds[i] && replaced_from(olds, news, id, i + 1, found, placed)
    }
}

proof fn lemma_replaced_skip(
    olds: Seq<BoardNode>,
    news: Seq<BoardNode>,
    id: Seq<char>,
    i: int,
    found: BoardNode,
    placed: BoardNode,
)
    requires
        0 <= i <= olds.len(),
        news.len() == olds.len(),
        forall|j: int| 0 <= j < i ==> !node_has(#[trigger] olds[j], id) && news[j] == olds[j],
    ensures
        i < olds.len() ==> (replaced_from(olds, news, id, 0, found, placed) == replaced_from(
            olds,
            news,
            id,
            i,
            found,
            placed,
        )),
        nodes_have_from(olds, id, 0) == nodes_have_from(olds, id, i),
    decreases i,
{
    if i > 0 {
        lemma_replaced_skip(olds, news, id, i - 1, found, placed);
        assert(!node_has(olds[i - 1], id));
    }
}

fn node_contains(n: &BoardNode, id: &str) -> (b: bool)
    ensures
        b == node_has(*n, id@),
    decreases n,
{
    if str_eq(n.id(), id) {
        return true;
    }
    match n {
        BoardNode::Widget { .. } => false,
        BoardNode::Container { children, .. } => {
            let mut i: usize = 0;
            while i < children.len()
                invariant
                    i <= children@.len(),
                    n is Container,
                    n->children == *children,
                    node_id(*n) != id@,
                    nodes_have_from(children@, id@, 0) == nodes_have_from(children@, id@, i as int),
                decreases children.len() - i,
            {
                proof {
                    vstd::std_specs::vec::axiom_vec_index_decreases(*children, i as int);
                    assert(decreases_to!(*n => n->children));
                }
                if node_contains(&children[i], id) {
                    return true;
                }
                i = i + 1;
            }
            false
        },
    }
}

fn find_in_nodes<'a>(nodes: &'a mut Vec<BoardNode>, id: &str) -> (r: Option<&'a mut BoardNode>)
    ensures
        r is Some <==> nodes_have_from(old(nodes)@, id@, 0),
        r is None ==> final(nodes)@ == old(nodes)@,
        r matches Some(n) ==> replaced_from(old(nodes)@, final(nodes)@, id@, 0, *n, *final(n)),
    decreases old(nodes)@,
{
    let ghost olds = nodes@;
    let mut i: usize = 0;
    while i < nodes.len()
        invariant
            nodes@ == olds,
            olds == old(nodes)@,
            i <= olds.len(),
            forall|j: int| 0 <= j < i ==> !node_has(#[trigger] olds[j], id@),
        decreases nodes.len() - i,
    {
        if str_eq(nodes[i].id(), id) {
            proof {
                lemma_replaced_skip(olds, olds, id@, i as int, olds[i as int], olds[i as int]);
                assert(node_has(olds[i as int], id@));
                assert(nodes_have_from(olds, id@, i as int));
            }
            let ghost old_node = nodes@[i as int];
            let node = &mut nodes[i];
            proof {
                assert forall|found: BoardNode, placed: BoardNode| #![auto]
                    replaced_from(olds, olds.update(i as int, placed), id@, 0, found, placed)
                        == replaced_from(olds, olds.update(i as int, placed), id@, i as int, found, placed) by {
                    lemma_replaced_skip(olds, olds.update(i as int, placed), id@, i as int, found, placed);
                }
            }
            return Some(node);
        }
        if node_contains(&nodes[i], id) {
            proof {
                lemma_replaced_skip(olds, olds, id@, i as int, olds[i as int], olds[i as int]);
            }
            proof {
                assert forall|x: BoardNode, found: BoardNode, placed: BoardNode| #![auto]
                    replaced_from(olds, olds.update(i as int, x), id@, 0, found, placed)
                        == replaced_from(olds, olds.update(i as int, x), id@, i as int, found, placed) by {
                    lemma_replaced_skip(olds, olds.update(i as int, x), id@, i as int, found, placed);
                }
            }
            match &mut nodes[i] {
                BoardNode::Container { children, .. } => {
                    proof {
                        assert(decreases_to!(olds => olds[i as int]));
                        assert(decreases_to!(olds[i as int] => olds[i as int]->children));
                        assert(decreases_to!(olds[i as int]->children => olds[i as int]->children@));
                    }
                    return find_in_nodes(children, id);
                },
                BoardNode::Widget { .. } => {
                    return None;
                },
            }
        }
        i = i + 1;
    }
    proof {
        if olds.len() > 0 {
            lemma_replaced_skip(olds, olds, id@, i as int, olds[0], olds[0]);
        }
    }
    None
}


impl DashboardLayout {
    /// The first node on the board, in pre-order, whose id is `id`, to be changed in
    /// place; `None` when no node has that id.
    pub fn find_widget_mut(&mut self, id: &str) -> (r: Option<&mut BoardNode>)
        ensures
            r is Some <==> nodes_have_from(old(self).nodes@, id@, 0),
            r is None ==> final(self).nodes@ == old(self).nodes@,
            r matches Some(n) ==> replaced_from(
                old(self).nodes@,
                final(self).nodes@,
                id@,
                0,
                *n,
                *final(n),
            ),
            final(self).version == old(self).version,
            final(self).revision == old(self).revision,
            final(self).widgets == old(self).widgets,
    {
        find_in_nodes(&mut self.nodes, id)
    }
}

/// Length, first and eighth character of a widget key: enough to tell the keys apart.
spec fn key_mark(key: Seq<char>) -> (nat, char, char) {
    if key.len() > 7 {
        (key.len(), key[0], key[7])
    } else {
        (key.len(), key[0], key[0])
    }
}

spec fn widget_mark(kind: DashboardWidgetKind) -> (nat, char, char) {
    match kind {
        DashboardWidgetKind::MetricSession => (14nat, 'm', 's'),
        DashboardWidgetKind::MetricDevices => (14nat, 'm', 'd'),
        DashboardWidgetKind::MetricOrgs => (11nat, 'm', 'o'),
        DashboardWidgetKind::MetricSecurity => (15nat, 'm', 's'),
        DashboardWidgetKind::Activity => (8nat, 'a', 'y'),
        DashboardWidgetKind::Notifications => (13nat, 'n', 'a'),
        DashboardWidgetKind::Sessions => (8nat, 's', 's'),
        DashboardWidgetKind::Organizations => (13nat, 'o', 'a'),
        DashboardWidgetKind::SecurityPosture => (16nat, 's', 'y'),
        DashboardWidgetKind::Notes => (5nat, 'n', 'n'),
        DashboardWidgetKind::Checklist => (9nat, 'c', 's'),
        DashboardWidgetKind::HttpPanel => (10nat, 'h', 'n'),
        DashboardWidgetKind::BoundMetric => (12nat, 'b', 'e'),
        DashboardWidgetKind::BoundList => (10nat, 'b', 'i'),
        DashboardWidgetKind::BoundTable => (11nat, 'b', 'a'),
    }
}

proof fn lemma_key_mark(a: DashboardWidgetKind)
    ensures
        key_mark(widget_key(a)) == widget_mark(a),
{
    match a {
        DashboardWidgetKind::MetricSession => {
            reveal_strlit("metric_session");
            assert(widget_key(a).len() == 14 && widget_key(a)[0] == 'm');
            assert(widget_key(a)[7] == 's');
        },
        DashboardWidgetKind::MetricDevices => {
            reveal_strlit("metric_devices");
            assert(widget_key(a).len() == 14 && widget_key(a)[0] == 'm');
            assert(widget_key(a)[7] == 'd');
        },
        DashboardWidgetKind::MetricOrgs => {
            reveal_strlit("metric_orgs");
            assert(widget_key(a).len() == 11 && widget_key(a)[0] == 'm');
            assert(widget_key(a)[7] == 'o');
        },
        DashboardWidgetKind::MetricSecurity => {
            reveal_strlit("metric_security");
            assert(widget_key(a).len() == 15 && widget_key(a)[0] == 'm');
            assert(widget_key(a)[7] == 's');
        },
        DashboardWidgetKind::Activity => {
            reveal_strlit("activity");
            assert(widget_key(a).len() == 8 && widget_key(a)[0] == 'a');
            assert(widget_key(a)[7] == 'y');
        },
        DashboardWidgetKind::Notifications => {
            reveal_strlit("notifications");
            assert(widget_key(a).len() == 13 && widget_key(a)[0] == 'n');
            assert(widget_key(a)[7] == 'a');
        },
        DashboardWidgetKind::Sessions => {
            reveal_strlit("sessions");
            assert(widget_key(a).len() == 8 && widget_key(a)[0] == 's');
            assert(widget_key(a)[7] == 's');
        },
        DashboardWidgetKind::Organizations => {
            reveal_strlit("organizations");
            assert(widget_key(a).len() == 13 && widget_key(a)[0] == 'o');
            assert(widget_key(a)[7] == 'a');
        },
        DashboardWidgetKind::SecurityPosture => {
            reveal_strlit("security_posture");
            assert(widget_key(a).len() == 16 && widget_key(a)[0] == 's');
            assert(widget_key(a)[7] == 'y');
        },
        DashboardWidgetKind::Notes => {
            reveal_strlit("notes");
            assert(widget_key(a).len() == 5 && widget_key(a)[0] == 'n');
            
        },
        DashboardWidgetKind::Checklist => {
            reveal_strlit("checklist");
            assert(widget_key(a).len() == 9 && widget_key(a)[0] == 'c');
            assert(widget_key(a)[7] == 's');
        },
        DashboardWidgetKind::HttpPanel => {
            reveal_strlit("http_panel");
            assert(widget_key(a).len() == 10 && widget_key(a)[0] == 'h');
            assert(widget_key(a)[7] == 'n');
        },
        DashboardWidgetKind::BoundMetric => {
            reveal_strlit("bound_metric");
            assert(widget_key(a).len() == 12 && widget_key(a)[0] == 'b');
            assert(widget_key(a)[7] == 'e');
        },
        DashboardWidgetKind::BoundList => {
            reveal_strlit("bound_list");
            assert(widget_key(a).len() == 10 && widget_key(a)[0] == 'b');
            assert(widget_key(a)[7] == 'i');
        },
        DashboardWidgetKind::BoundTable => {
            reveal_strlit("bound_table");
            assert(widget_key(a).len() == 11 && widget_key(a)[0] == 'b');
            assert(widget_key(a)[7] == 'a');
        },
    }
}

/// Each widget kind has its own key: two kinds with the same key are the same kind.
pub proof fn lemma_widget_keys_distinct(a: DashboardWidgetKind, b: DashboardWidgetKind)
    ensures
        widget_key(a) == widget_key(b) ==> a == b,
{
    lemma_key_mark(a);
    lemma_key_mark(b);
}

} // verus!
