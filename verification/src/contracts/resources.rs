//! Dashboard resources (connections) and the saved queries that run against them.

use vstd::prelude::*;
use crate::contracts::dashboard::BuiltinSourceKey;
use crate::text::{lemma_trim_unchanged, owned, str_eq, to_upper, trim, trim_chars, upper_chars, string_of};

verus! {

/// Where an API key is injected.
#[derive(Clone, Copy, Debug, PartialEq, Eq, Structural)]
pub enum ApiKeyLocation {
    Header,
    QueryParam,
}

/// Secret-capable header / metadata / query-param value.
#[derive(Clone, Debug, PartialEq, Eq)]
pub enum HeaderValue {
    Literal { value: String },
    Secret { secret_id: String },
}

#[derive(Clone, Debug, PartialEq, Eq)]
pub struct HeaderBag {
    pub name: String,
    pub value: HeaderValue,
}

/// Connection authentication (applied server-side when executing queries).
#[derive(Clone, Debug, PartialEq, Eq)]
pub enum ResourceAuth {
    NoAuth,
    Bearer {
        secret_id: String,
    },
    Basic {
        username: String,
        password_secret_id: String,
    },
    ApiKey {
        location: ApiKeyLocation,
        name: String,
        secret_id: String,
    },
    OAuth2ClientCredentials {
        token_url: String,
        client_id: String,
        client_secret_id: String,
        scopes: Vec<String>,
        audience: Option<String>,
    },
}

#[derive(Clone, Copy, Debug, PartialEq, Eq, Structural)]
pub enum ResourceKind {
    Builtin,
    Rest,
    Postgres,
    Grpc,
}

#[derive(Clone, Copy, Debug, PartialEq, Eq, Structural)]
pub enum PostgresSslMode {
    Disable,
    Prefer,
    Require,
}

#[derive(Clone, Debug, PartialEq, Eq)]
pub enum GrpcProtoSource {
    Reflection,
    ProtoFile { content_id: String },
}

#[derive(Clone, Debug, PartialEq, Eq)]
pub enum ResourceConfig {
    Builtin,
    Rest {
        base_url: String,
        timeout_ms: u32,
    },
    Postgres {
        host: String,
        port: u16,
        database: String,
        user: String,
        password_secret_id: String,
        ssl_mode: PostgresSslMode,
    },
    Grpc {
        host: String,
        port: u16,
        tls: bool,
        proto_source: GrpcProtoSource,
        max_message_bytes: u32,
        use_proto_json: bool,
        /// When set, unary calls are POSTed as JSON to this base (grpc-gateway / envoy transcoder).
        /// Native Spin HTTP/2 gRPC client is gated; gateway is the supported path today.
        gateway_base_url: Option<String>,
    },
}

/// Saved connection (Retool "Resource"). Secrets never leave the server.
#[derive(Clone, Debug, PartialEq, Eq)]
pub struct DashboardResource {
    pub id: String,
    pub name: String,
    pub kind: ResourceKind,
    pub auth: ResourceAuth,
    pub default_headers: Vec<HeaderBag>,
    pub config: ResourceConfig,
}

/// Client-safe resource summary (no secret ids resolved, no passwords).
#[derive(Clone, Debug, PartialEq, Eq)]
pub struct ResourceSummary {
    pub id: String,
    pub name: String,
    pub kind: ResourceKind,
    pub auth_type: String,
    pub detail: String,
    pub header_names: Vec<String>,
    pub has_secrets: bool,
}

#[derive(Clone, Debug, PartialEq, Eq)]
pub enum TransformStep {
    JsonPath {
        path: String,
    },
    AsArray,
    MapFields {
        /// target_field → source_path
        fields: Vec<(String, String)>,
    },
    Limit {
        n: u32,
    },
    PickScalar {
        path: String,
    },
}

#[derive(Clone, Copy, Debug, PartialEq, Eq, Structural)]
pub enum HttpMethod {
    Get,
    Post,
    Put,
    Patch,
    Delete,
}

#[derive(Clone, Debug, PartialEq, Eq)]
pub struct QueryParam {
    pub name: String,
    pub value: HeaderValue,
}

#[derive(Clone, Debug, PartialEq, Eq)]
pub enum QueryConfig {
    Rest {
        method: HttpMethod,
        path: String,
        query_params: Vec<QueryParam>,
        headers: Vec<HeaderBag>,
        body: Option<String>,
    },
    Postgres {
        sql: String,
    },
    Grpc {
        service: String,
        method: String,
        request_json: String,
        headers: Vec<HeaderBag>,
    },
    Builtin {
        key: BuiltinSourceKey,
    },
}

/// Security class derived by the server from the saved query definition.
/// Clients never choose this value.
#[derive(Clone, Copy, Debug, PartialEq, Eq, Structural)]
pub enum QueryExecutionClass {
    Read,
    Mutation,
}

/// Executable query against a resource (Retool "Resource query").
#[derive(Clone, Debug, PartialEq, Eq)]
pub struct DashboardQuery {
    pub id: String,
    pub name: String,
    pub resource_id: String,
    pub transform: Vec<TransformStep>,
    pub config: QueryConfig,
}

/// Client-safe query summary.
#[derive(Clone, Debug, PartialEq, Eq)]
pub struct QuerySummary {
    pub id: String,
    pub name: String,
    pub resource_id: String,
    pub resource_kind: ResourceKind,
    pub detail: String,
}

#[derive(Clone, Debug, PartialEq, Eq)]
pub struct QueryMeta {
    pub resource_kind: ResourceKind,
    pub status: Option<u16>,
    pub grpc_status: Option<i32>,
    pub duration_ms: u64,
    pub row_count: Option<u32>,
    pub truncated: bool,
}

/// Safe query execution result (never includes secrets).
#[derive(Clone, Debug, PartialEq, Eq)]
pub struct QueryResult {
    pub query_id: String,
    pub ok: bool,
    pub error: Option<String>,
    /// Payload before transform pipeline.
    pub raw_json: String,
    /// Payload after transform pipeline.
    pub data_json: String,
    pub meta: QueryMeta,
}

#[derive(Clone, Debug, PartialEq, Eq)]
pub struct ResourceUpsert {
    pub id: Option<String>,
    pub name: String,
    pub kind: ResourceKind,
    pub auth: ResourceAuth,
    pub default_headers: Vec<HeaderBag>,
    pub config: ResourceConfig,
}

#[derive(Clone, Debug, PartialEq, Eq)]
pub struct QueryUpsert {
    pub id: Option<String>,
    pub name: String,
    pub resource_id: String,
    pub transform: Vec<TransformStep>,
    pub config: QueryConfig,
}


impl Default for ApiKeyLocation {
    fn default() -> (d: Self)
        ensures
            d == ApiKeyLocation::Header,
    {
        ApiKeyLocation::Header
    }
}

impl HeaderValue {
    /// A header value given in the clear.
    pub fn literal(value: &str) -> (v: Self)
        ensures
            v matches HeaderValue::Literal { value: s } && s@ == value@,
    {
        HeaderValue::Literal { value: owned(value) }
    }

    /// A header value read from the vault entry `secret_id` when the query runs.
    pub fn secret(secret_id: &str) -> (v: Self)
        ensures
            v matches HeaderValue::Secret { secret_id: s } && s@ == secret_id@,
    {
        HeaderValue::Secret { secret_id: owned(secret_id) }
    }
}

impl Default for ResourceAuth {
    fn default() -> (d: Self)
        ensures
            d is NoAuth,
    {
        ResourceAuth::NoAuth
    }
}

pub open spec fn resource_kind_key(kind: ResourceKind) -> Seq<char> {
    match kind {
        ResourceKind::Builtin => "builtin"@,
        ResourceKind::Rest => "rest"@,
        ResourceKind::Postgres => "postgres"@,
        ResourceKind::Grpc => "grpc"@,
    }
}

pub open spec fn resource_kind_label(kind: ResourceKind) -> Seq<char> {
    match kind {
        ResourceKind::Builtin => "App builtins"@,
        ResourceKind::Rest => "REST API"@,
        ResourceKind::Postgres => "PostgreSQL"@,
        ResourceKind::Grpc => "gRPC"@,
    }
}

impl ResourceKind {
    pub fn as_str(&self) -> (s: &'static str)
        ensures
            s@ == resource_kind_key(*self),
    {
        match self {
            ResourceKind::Builtin => "builtin",
            ResourceKind::Rest => "rest",
            ResourceKind::Postgres => "postgres",
            ResourceKind::Grpc => "grpc",
        }
    }
}

impl ResourceKind {
    pub fn label(&self) -> (s: &'static str)
        ensures
            s@ == resource_kind_label(*self),
    {
        match self {
            ResourceKind::Builtin => "App builtins",
            ResourceKind::Rest => "REST API",
            ResourceKind::Postgres => "PostgreSQL",
            ResourceKind::Grpc => "gRPC",
        }
    }
}

impl Default for PostgresSslMode {
    fn default() -> (d: Self)
        ensures
            d == PostgresSslMode::Prefer,
    {
        PostgresSslMode::Prefer
    }
}

impl Default for GrpcProtoSource {
    fn default() -> (d: Self)
        ensures
            d is Reflection,
    {
        GrpcProtoSource::Reflection
    }
}

/// The largest gRPC message a resource accepts unless configured otherwise (4 MiB).
pub fn default_grpc_max_message() -> (n: u32)
    ensures
        n == 4 * 1024 * 1024,
{
    4 * 1024 * 1024
}

pub open spec fn http_method_name(m: HttpMethod) -> Seq<char> {
    match m {
        HttpMethod::Get => "GET"@,
        HttpMethod::Post => "POST"@,
        HttpMethod::Put => "PUT"@,
        HttpMethod::Patch => "PATCH"@,
        HttpMethod::Delete => "DELETE"@,
    }
}

/// The method named by `raw`, trimmed and without regard to ASCII case.
pub open spec fn http_method_from(raw: Seq<char>) -> Option<HttpMethod> {
    let key = to_upper(trim(raw));
    if key == "GET"@ {
        Some(HttpMethod::Get)
    } else if key == "POST"@ {
        Some(HttpMethod::Post)
    } else if key == "PUT"@ {
        Some(HttpMethod::Put)
    } else if key == "PATCH"@ {
        Some(HttpMethod::Patch)
    } else if key == "DELETE"@ {
        Some(HttpMethod::Delete)
    } else {
        None
    }
}

impl HttpMethod {
    pub fn as_str(&self) -> (s: &'static str)
        ensures
            s@ == http_method_name(*self),
    {
        match self {
            HttpMethod::Get => "GET",
            HttpMethod::Post => "POST",
            HttpMethod::Put => "PUT",
            HttpMethod::Patch => "PATCH",
            HttpMethod::Delete => "DELETE",
        }
    }

    pub fn parse(raw: &str) -> (m: Option<Self>)
        ensures
            m == http_method_from(raw@),
    {
        let trimmed = trim_chars(raw);
        let upper = upper_chars(&trimmed);
        let key = string_of(&upper);
        if str_eq(key.as_str(), "GET") {
            Some(HttpMethod::Get)
        } else if str_eq(key.as_str(), "POST") {
            Some(HttpMethod::Post)
        } else if str_eq(key.as_str(), "PUT") {
            Some(HttpMethod::Put)
        } else if str_eq(key.as_str(), "PATCH") {
            Some(HttpMethod::Patch)
        } else if str_eq(key.as_str(), "DELETE") {
            Some(HttpMethod::Delete)
        } else {
            None
        }
    }
}

/// Reads are `GET` REST calls and builtin sources; everything else, PostgreSQL included,
/// is treated as a mutation.
pub open spec fn query_class(q: QueryConfig) -> QueryExecutionClass {
    match q {
        QueryConfig::Rest { method, .. } => if method == HttpMethod::Get {
            QueryExecutionClass::Read
        } else {
            QueryExecutionClass::Mutation
        },
        QueryConfig::Builtin { .. } => QueryExecutionClass::Read,
        _ => QueryExecutionClass::Mutation,
    }
}

impl QueryConfig {
    /// Classifies execution conservatively. PostgreSQL remains mutation-class until an
    /// AST-based read-only validator is available; a lexical prefix check is not a
    /// sufficient authorization boundary.
    pub fn execution_class(&self) -> (c: QueryExecutionClass)
        ensures
            c == query_class(*self),
    {
        match self {
            QueryConfig::Rest { method: HttpMethod::Get, .. } => QueryExecutionClass::Read,
            QueryConfig::Builtin { .. } => QueryExecutionClass::Read,
            _ => QueryExecutionClass::Mutation,
        }
    }
}

impl QueryResult {
    /// A failed result: no payload (`null`), the error message, and empty metadata for
    /// a query against a resource of `kind`.
    pub fn err(query_id: &str, kind: ResourceKind, message: &str) -> (r: Self)
        ensures
            r.query_id@ == query_id@,
            !r.ok,
            r.error matches Some(e) && e@ == message@,
            r.raw_json@ == "null"@,
            r.data_json@ == "null"@,
            r.meta.resource_kind == kind,
            r.meta.status is None,
            r.meta.grpc_status is None,
            r.meta.duration_ms == 0,
            r.meta.row_count is None,
            !r.meta.truncated,
    {
        QueryResult {
            query_id: owned(query_id),
            ok: false,
            error: Some(owned(message)),
            raw_json: owned("null"),
            data_json: owned("null"),
            meta: QueryMeta {
                resource_kind: kind,
                status: None,
                grpc_status: None,
                duration_ms: 0,
                row_count: None,
                truncated: false,
            },
        }
    }
}

/// A nonempty run of uppercase ASCII letters is its own method key.
proof fn lemma_uppercase_key(s: Seq<char>)
    requires
        s.len() > 0,
        forall|i: int| 0 <= i < s.len() ==> 'A' <= #[trigger] s[i] && s[i] <= 'Z',
    ensures
        to_upper(trim(s)) == s,
{
    lemma_trim_unchanged(s);
    assert(to_upper(s) =~= s);
}

/// Parsing a method's name gives that method back.
pub proof fn lemma_http_method_round_trip(m: HttpMethod)
    ensures
        http_method_from(http_method_name(m)) == Some(m),
{
    reveal_strlit("GET");
    reveal_strlit("POST");
    reveal_strlit("PUT");
    reveal_strlit("PATCH");
    reveal_strlit("DELETE");
    match m {
        HttpMethod::Get => {
            reveal_strlit("GET");
            lemma_uppercase_key(http_method_name(m));
        },
        HttpMethod::Post => {
            reveal_strlit("POST");
            lemma_uppercase_key(http_method_name(m));
        },
        HttpMethod::Put => {
            reveal_strlit("PUT");
            lemma_uppercase_key(http_method_name(m));
        },
        HttpMethod::Patch => {
            reveal_strlit("PATCH");
            lemma_uppercase_key(http_method_name(m));
        },
        HttpMethod::Delete => {
            reveal_strlit("DELETE");
            lemma_uppercase_key(http_method_name(m));
        },
    }
}

} // verus!
