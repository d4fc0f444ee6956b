//! The routes of the HTTP surfaces.

use vstd::prelude::*;

use crate::auth::{admin_auth, admin_refusal, carries_key};
use crate::headers::header_text;
use crate::http::ErrorReply;
use crate::text::opt_str;

verus! {

/// The method of a request.
#[derive(Clone, Copy, Debug, PartialEq, Eq, Structural)]
pub enum Method {
    Get,
    Post,
    Patch,
    Delete,
}

/// What a route leads to.
#[derive(Clone, Copy, Debug, PartialEq, Eq, Structural)]
pub enum Endpoint {
    /// A batch of SQL statements.
    Query,
    /// The version of the server.
    Version,
    /// The console.
    Console,
    /// A sign of life.
    Health,
    /// A dump of a database.
    Dump,
    /// A stream of changes.
    Listen,
    /// The index of a stream protocol.
    HranaIndex,
    /// A pipeline of version 2, in JSON.
    Hrana2Pipeline,
    /// A pipeline of version 3, in JSON.
    Hrana3Pipeline,
    /// A cursor of version 3, in JSON.
    Hrana3Cursor,
    /// A pipeline of version 3, in Protobuf.
    Hrana3ProtobufPipeline,
    /// A cursor of version 3, in Protobuf.
    Hrana3ProtobufCursor,
    /// A pipeline that names its namespace and version in the path.
    DevPipeline,
    Migrations,
    MigrationDetails,
    Queries,
    Info,
    GetConfig,
    PostConfig,
    ForkNamespace,
    CreateNamespace,
    Checkpoint,
    Compact,
    Replication,
    DeleteNamespace,
    Stats,
    DeleteStats,
    Diagnostics,
    Metrics,
    OpenApi,
    Docs,
    ListDatabases,
    CreateDatabase,
    GetDatabase,
    RenameDatabase,
    DeleteDatabase,
    RotateToken,
    VerifyKey,
    AdminQuery,
}

/// A route. A segment of the path that starts with a colon matches every segment.
#[derive(Clone, Copy, Debug)]
pub struct Route {
    pub method: Method,
    pub path: &'static str,
    pub endpoint: Endpoint,
}

impl View for Route {
    type V = (Method, Seq<char>, Endpoint);

    open spec fn view(&self) -> (Method, Seq<char>, Endpoint) {
        (self.method, self.path@, self.endpoint)
    }
}

/// The views of routes.
pub open spec fn table(routes: Seq<Route>) -> Seq<(Method, Seq<char>, Endpoint)> {
    routes.map_values(|r: Route| r@)
}

fn push(routes: &mut Vec<Route>, method: Method, path: &'static str, endpoint: Endpoint)
    ensures
        table(final(routes)@) == table(old(routes)@).push((method, path@, endpoint)),
{
    routes.push(Route { method, path, endpoint });
    assert(table(routes@) =~= table(old(routes)@).push((method, path@, endpoint)));
}

/// The routes for users of the databases.
pub open spec fn user_table() -> Seq<(Method, Seq<char>, Endpoint)> {
    seq![
        (Method::Post, "/"@, Endpoint::Query),
        (Method::Get, "/version"@, Endpoint::Version),
        (Method::Get, "/console"@, Endpoint::Console),
        (Method::Get, "/health"@, Endpoint::Health),
        (Method::Get, "/dump"@, Endpoint::Dump),
        (Method::Get, "/beta/listen"@, Endpoint::Listen),
        (Method::Get, "/v2"@, Endpoint::HranaIndex),
        (Method::Post, "/v2/pipeline"@, Endpoint::Hrana2Pipeline),
        (Method::Get, "/v3"@, Endpoint::HranaIndex),
        (Method::Post, "/v3/pipeline"@, Endpoint::Hrana3Pipeline),
        (Method::Post, "/v3/cursor"@, Endpoint::Hrana3Cursor),
        (Method::Get, "/v3-protobuf"@, Endpoint::HranaIndex),
        (Method::Post, "/v3-protobuf/pipeline"@, Endpoint::Hrana3ProtobufPipeline),
        (Method::Post, "/v3-protobuf/cursor"@, Endpoint::Hrana3ProtobufCursor),
        (Method::Post, "/dev/:namespace/v:version/pipeline"@, Endpoint::DevPipeline),
        (Method::Get, "/v1/jobs"@, Endpoint::Migrations),
        (Method::Get, "/v1/jobs/:job_id"@, Endpoint::MigrationDetails),
    ]
}

/// The routes for users of the databases.
pub fn user_routes() -> (r: Vec<Route>)
    ensures
        table(r@) == user_table(),
{
    let mut routes: Vec<Route> = Vec::new();
    push(&mut routes, Method::Post, "/", Endpoint::Query);
    push(&mut routes, Method::Get, "/version", Endpoint::Version);
    push(&mut routes, Method::Get, "/console", Endpoint::Console);
    push(&mut routes, Method::Get, "/health", Endpoint::Health);
    push(&mut routes, Method::Get, "/dump", Endpoint::Dump);
    push(&mut routes, Method::Get, "/beta/listen", Endpoint::Listen);
    push(&mut routes, Method::Get, "/v2", Endpoint::HranaIndex);
    push(&mut routes, Method::Post, "/v2/pipeline", Endpoint::Hrana2Pipeline);
    push(&mut routes, Method::Get, "/v3", Endpoint::HranaIndex);
    push(&mut routes, Method::Post, "/v3/pipeline", Endpoint::Hrana3Pipeline);
    push(&mut routes, Method::Post, "/v3/cursor", Endpoint::Hrana3Cursor);
    push(&mut routes, Method::Get, "/v3-protobuf", Endpoint::HranaIndex);
    push(&mut routes, Method::Post, "/v3-protobuf/pipeline", Endpoint::Hrana3ProtobufPipeline);
    push(&mut routes, Method::Post, "/v3-protobuf/cursor", Endpoint::Hrana3ProtobufCursor);
    push(&mut routes, Method::Post, "/dev/:namespace/v:version/pipeline", Endpoint::DevPipeline);
    push(&mut routes, Method::Get, "/v1/jobs", Endpoint::Migrations);
    push(&mut routes, Method::Get, "/v1/jobs/:job_id", Endpoint::MigrationDetails);
    assert(table(routes@) =~= user_table());
    routes
}

/// The routes of the platform.
pub open spec fn platform_table() -> Seq<(Method, Seq<char>, Endpoint)> {
    seq![
        (Method::Get, "/api/queries"@, Endpoint::Queries),
        (Method::Get, "/info"@, Endpoint::Info),
    ]
}

/// The routes of the platform: the list of in-flight queries, and `/info`.
pub fn platform_routes() -> (r: Vec<Route>)
    ensures
        table(r@) == platform_table(),
{
    let mut routes: Vec<Route> = Vec::new();
    push(&mut routes, Method::Get, "/api/queries", Endpoint::Queries);
    push(&mut routes, Method::Get, "/info", Endpoint::Info);
    assert(table(routes@) =~= platform_table());
    routes
}

/// The routes that manage namespaces.
pub open spec fn admin_table() -> Seq<(Method, Seq<char>, Endpoint)> {
    seq![
        (Method::Get, "/v1/namespaces/:namespace/config"@, Endpoint::GetConfig),
        (Method::Post, "/v1/namespaces/:namespace/config"@, Endpoint::PostConfig),
        (Method::Post, "/v1/namespaces/:namespace/fork/:to"@, Endpoint::ForkNamespace),
        (Method::Post, "/v1/namespaces/:namespace/create"@, Endpoint::CreateNamespace),
        (Method::Post, "/v1/namespaces/:namespace/checkpoint"@, Endpoint::Checkpoint),
        (Method::Post, "/v1/namespaces/:namespace/compact"@, Endpoint::Compact),
        (Method::Get, "/v1/namespaces/:namespace/replication"@, Endpoint::Replication),
        (Method::Delete, "/v1/namespaces/:namespace"@, Endpoint::DeleteNamespace),
        (Method::Get, "/v1/namespaces/:namespace/stats"@, Endpoint::Stats),
        (Method::Delete, "/v1/namespaces/:namespace/stats/:stats_type"@, Endpoint::DeleteStats),
        (Method::Get, "/v1/diagnostics"@, Endpoint::Diagnostics),
        (Method::Get, "/metrics"@, Endpoint::Metrics),
    ]
}

/// The routes that manage namespaces, with the metrics.
pub fn admin_routes() -> (r: Vec<Route>)
    ensures
        table(r@) == admin_table(),
{
    let mut routes: Vec<Route> = Vec::new();
    push(&mut routes, Method::Get, "/v1/namespaces/:namespace/config", Endpoint::GetConfig);
    push(&mut routes, Method::Post, "/v1/namespaces/:namespace/config", Endpoint::PostConfig);
    push(&mut routes, Method::Post, "/v1/namespaces/:namespace/fork/:to", Endpoint::ForkNamespace);
    push(&mut routes, Method::Post, "/v1/namespaces/:namespace/create", Endpoint::CreateNamespace);
    push(&mut routes, Method::Post, "/v1/namespaces/:namespace/checkpoint", Endpoint::Checkpoint);
    push(&mut routes, Method::Post, "/v1/namespaces/:namespace/compact", Endpoint::Compact);
    push(&mut routes, Method::Get, "/v1/namespaces/:namespace/replication", Endpoint::Replication);
    push(&mut routes, Method::Delete, "/v1/namespaces/:namespace", Endpoint::DeleteNamespace);
    push(&mut routes, Method::Get, "/v1/namespaces/:namespace/stats", Endpoint::Stats);
    push(
        &mut routes,
        Method::Delete,
        "/v1/namespaces/:namespace/stats/:stats_type",
        Endpoint::DeleteStats,
    );
    push(&mut routes, Method::Get, "/v1/diagnostics", Endpoint::Diagnostics);
    push(&mut routes, Method::Get, "/metrics", Endpoint::Metrics);
    assert(table(routes@) =~= admin_table());
    routes
}

/// The routes of the documentation.
pub open spec fn docs_table() -> Seq<(Method, Seq<char>, Endpoint)> {
    seq![
        (Method::Get, "/openapi.json"@, Endpoint::OpenApi),
        (Method::Get, "/docs"@, Endpoint::Docs),
    ]
}

/// The routes of the documentation.
pub fn docs_routes() -> (r: Vec<Route>)
    ensures
        table(r@) == docs_table(),
{
    let mut routes: Vec<Route> = Vec::new();
    push(&mut routes, Method::Get, "/openapi.json", Endpoint::OpenApi);
    push(&mut routes, Method::Get, "/docs", Endpoint::Docs);
    assert(table(routes@) =~= docs_table());
    routes
}

/// The routes of the dashboard.
pub open spec fn dashboard_table() -> Seq<(Method, Seq<char>, Endpoint)> {
    seq![
        (Method::Get, "/api/databases"@, Endpoint::ListDatabases),
        (Method::Post, "/api/databases"@, Endpoint::CreateDatabase),
        (Method::Get, "/api/databases/:id"@, Endpoint::GetDatabase),
        (Method::Patch, "/api/databases/:id"@, Endpoint::RenameDatabase),
        (Method::Delete, "/api/databases/:id"@, Endpoint::DeleteDatabase),
        (Method::Post, "/api/databases/:id/token"@, Endpoint::RotateToken),
        (Method::Post, "/api/auth/verify"@, Endpoint::VerifyKey),
        (Method::Post, "/api/query"@, Endpoint::AdminQuery),
    ]
}

/// The routes of the dashboard. What no route takes is looked for among its files.
pub fn admin_router() -> (r: Vec<Route>)
    ensures
        table(r@) == dashboard_table(),
{
    let mut routes: Vec<Route> = Vec::new();
    push(&mut routes, Method::Get, "/api/databases", Endpoint::ListDatabases);
    push(&mut routes, Method::Post, "/api/databases", Endpoint::CreateDatabase);
    push(&mut routes, Method::Get, "/api/databases/:id", Endpoint::GetDatabase);
    push(&mut routes, Method::Patch, "/api/databases/:id", Endpoint::RenameDatabase);
    push(&mut routes, Method::Delete, "/api/databases/:id", Endpoint::DeleteDatabase);
    push(&mut routes, Method::Post, "/api/databases/:id/token", Endpoint::RotateToken);
    push(&mut routes, Method::Post, "/api/auth/verify", Endpoint::VerifyKey);
    push(&mut routes, Method::Post, "/api/query", Endpoint::AdminQuery);
    assert(table(routes@) =~= dashboard_table());
    routes
}

/// The routes of the main surface, in the order in which they are merged.
pub open spec fn main_table() -> Seq<(Method, Seq<char>, Endpoint)> {
    user_table() + platform_table() + admin_table() + docs_table()
}

/// The routes of the main surface.
pub fn main_routes() -> (r: Vec<Route>)
    ensures
        table(r@) == main_table(),
{
    let mut routes = user_routes();
    let mut platform = platform_routes();
    let mut admin = admin_routes();
    let mut docs = docs_routes();
    let ghost parts = (routes@, platform@, admin@, docs@);
    routes.append(&mut platform);
    routes.append(&mut admin);
    routes.append(&mut docs);
    assert(table(routes@) =~= table(parts.0) + table(parts.1) + table(parts.2) + table(parts.3));
    routes
}

// The admin key.

/// Whether an endpoint asks for the admin key.
pub open spec fn key_needed(endpoint: Endpoint) -> bool {
    match endpoint {
        Endpoint::GetConfig => true,
        Endpoint::PostConfig => true,
        Endpoint::ForkNamespace => true,
        Endpoint::CreateNamespace => true,
        Endpoint::Checkpoint => true,
        Endpoint::Compact => true,
        Endpoint::Replication => true,
        Endpoint::DeleteNamespace => true,
        Endpoint::Stats => true,
        Endpoint::DeleteStats => true,
        Endpoint::Diagnostics => true,
        Endpoint::Metrics => true,
        _ => false,
    }
}

fn needs_key(endpoint: Endpoint) -> (r: bool)
    ensures
        r == key_needed(endpoint),
{
    match endpoint {
        Endpoint::GetConfig => true,
        Endpoint::PostConfig => true,
        Endpoint::ForkNamespace => true,
        Endpoint::CreateNamespace => true,
        Endpoint::Checkpoint => true,
        Endpoint::Compact => true,
        Endpoint::Replication => true,
        Endpoint::DeleteNamespace => true,
        Endpoint::Stats => true,
        Endpoint::DeleteStats => true,
        Endpoint::Diagnostics => true,
        Endpoint::Metrics => true,
        _ => false,
    }
}

/// Lets a request through to an endpoint: where the endpoint asks for the admin key, as
/// `admin_auth` decides, and everywhere else without a question.
pub fn guard(
    endpoint: Endpoint,
    admin_key: Option<&str>,
    headers: &hyper::HeaderMap<hyper::header::HeaderValue>,
) -> (r: Result<(), ErrorReply>)
    ensures
        if key_needed(endpoint) {
            match admin_refusal(opt_str(admin_key), header_text(*headers, "authorization"@)) {
                None => r is Ok,
                Some(error) => r matches Err(e) && e@ == error,
            }
        } else {
            r is Ok
        },
{
    if needs_key(endpoint) {
        admin_auth(admin_key, headers)
    } else {
        Ok(())
    }
}

/// Whether a path is one that the admin key protects: those of the namespaces, the diagnostics
/// and the metrics.
pub open spec fn is_protected(path: Seq<char>) -> bool {
    "/v1/namespaces/"@.is_prefix_of(path) || path == "/v1/diagnostics"@ || path == "/metrics"@
}

/// Whether a route asks for the admin key exactly if its path is protected.
pub open spec fn is_guarded(route: (Method, Seq<char>, Endpoint)) -> bool {
    key_needed(route.2) <==> is_protected(route.1)
}

proof fn lemma_differs(prefix: Seq<char>, path: Seq<char>, i: int)
    requires
        0 <= i < prefix.len(),
        i < path.len() ==> prefix[i] != path[i],
    ensures
        !prefix.is_prefix_of(path),
        prefix != path,
{
}

/// A path is not protected if it differs from the namespaces' prefix at `n`, from the
/// diagnostics at `d` and from the metrics at `m`.
proof fn lemma_unprotected(path: Seq<char>, n: int, d: int, m: int)
    requires
        0 <= n < "/v1/namespaces/"@.len(),
        n < path.len() ==> "/v1/namespaces/"@[n] != path[n],
        0 <= d < "/v1/diagnostics"@.len(),
        d < path.len() ==> "/v1/diagnostics"@[d] != path[d],
        0 <= m < "/metrics"@.len(),
        m < path.len() ==> "/metrics"@[m] != path[m],
    ensures
        !is_protected(path),
{
    lemma_differs("/v1/namespaces/"@, path, n);
    lemma_differs("/v1/diagnostics"@, path, d);
    lemma_differs("/metrics"@, path, m);
}

/// A path is protected if it starts with the namespaces' prefix.
proof fn lemma_of_namespaces(path: Seq<char>)
    requires
        "/v1/namespaces/"@.len() <= path.len(),
        forall|i: int|
            0 <= i < "/v1/namespaces/"@.len() ==> "/v1/namespaces/"@[i] == #[trigger] path[i],
    ensures
        is_protected(path),
{
    assert("/v1/namespaces/"@ =~= path.subrange(0, "/v1/namespaces/"@.len() as int));
}

proof fn lemma_user_routes_are_guarded()
    ensures
        forall|i: int| 0 <= i < user_table().len() ==> is_guarded(#[trigger] user_table()[i]),
{
    reveal_strlit("/v1/namespaces/");
    reveal_strlit("/v1/diagnostics");
    reveal_strlit("/metrics");
    reveal_strlit("/");
    reveal_strlit("/version");
    reveal_strlit("/console");
    reveal_strlit("/health");
    reveal_strlit("/dump");
    reveal_strlit("/beta/listen");
    reveal_strlit("/v2");
    reveal_strlit("/v2/pipeline");
    reveal_strlit("/v3");
    reveal_strlit("/v3/pipeline");
    reveal_strlit("/v3/cursor");
    reveal_strlit("/v3-protobuf");
    reveal_strlit("/v3-protobuf/pipeline");
    reveal_strlit("/v3-protobuf/cursor");
    reveal_strlit("/dev/:namespace/v:version/pipeline");
    reveal_strlit("/v1/jobs");
    reveal_strlit("/v1/jobs/:job_id");
    lemma_unprotected("/"@, 1, 1, 1);
    lemma_unprotected("/version"@, 2, 2, 1);
    lemma_unprotected("/console"@, 1, 1, 1);
    lemma_unprotected("/health"@, 1, 1, 1);
    lemma_unprotected("/dump"@, 1, 1, 1);
    lemma_unprotected("/beta/listen"@, 1, 1, 1);
    lemma_unprotected("/v2"@, 2, 2, 1);
    lemma_unprotected("/v2/pipeline"@, 2, 2, 1);
    lemma_unprotected("/v3"@, 2, 2, 1);
    lemma_unprotected("/v3/pipeline"@, 2, 2, 1);
    lemma_unprotected("/v3/cursor"@, 2, 2, 1);
    lemma_unprotected("/v3-protobuf"@, 2, 2, 1);
    lemma_unprotected("/v3-protobuf/pipeline"@, 2, 2, 1);
    lemma_unprotected("/v3-protobuf/cursor"@, 2, 2, 1);
    lemma_unprotected("/dev/:namespace/v:version/pipeline"@, 1, 1, 1);
    lemma_unprotected("/v1/jobs"@, 4, 4, 1);
    lemma_unprotected("/v1/jobs/:job_id"@, 4, 4, 1);
}

proof fn lemma_platform_routes_are_guarded()
    ensures
        forall|i: int| 0 <= i < platform_table().len() ==> is_guarded(#[trigger] platform_table()[i]),
{
    reveal_strlit("/v1/namespaces/");
    reveal_strlit("/v1/diagnostics");
    reveal_strlit("/metrics");
    reveal_strlit("/api/queries");
    reveal_strlit("/info");
    lemma_unprotected("/api/queries"@, 1, 1, 1);
    lemma_unprotected("/info"@, 1, 1, 1);
}

proof fn lemma_admin_routes_are_guarded()
    ensures
        forall|i: int| 0 <= i < admin_table().len() ==> is_guarded(#[trigger] admin_table()[i]),
{
    reveal_strlit("/v1/namespaces/");
    reveal_strlit("/v1/diagnostics");
    reveal_strlit("/metrics");
    reveal_strlit("/v1/namespaces/:namespace/config");
    reveal_strlit("/v1/namespaces/:namespace/fork/:to");
    reveal_strlit("/v1/namespaces/:namespace/create");
    reveal_strlit("/v1/namespaces/:namespace/checkpoint");
    reveal_strlit("/v1/namespaces/:namespace/compact");
    reveal_strlit("/v1/namespaces/:namespace/replication");
    reveal_strlit("/v1/namespaces/:namespace");
    reveal_strlit("/v1/namespaces/:namespace/stats");
    reveal_strlit("/v1/namespaces/:namespace/stats/:stats_type");
    lemma_of_namespaces("/v1/namespaces/:namespace/config"@);
    lemma_of_namespaces("/v1/namespaces/:namespace/fork/:to"@);
    lemma_of_namespaces("/v1/namespaces/:namespace/create"@);
    lemma_of_namespaces("/v1/namespaces/:namespace/checkpoint"@);
    lemma_of_namespaces("/v1/namespaces/:namespace/compact"@);
    lemma_of_namespaces("/v1/namespaces/:namespace/replication"@);
    lemma_of_namespaces("/v1/namespaces/:namespace"@);
    lemma_of_namespaces("/v1/namespaces/:namespace/stats"@);
    lemma_of_namespaces("/v1/namespaces/:namespace/stats/:stats_type"@);
}

proof fn lemma_docs_routes_are_guarded()
    ensures
        forall|i: int| 0 <= i < docs_table().len() ==> is_guarded(#[trigger] docs_table()[i]),
{
    reveal_strlit("/v1/namespaces/");
    reveal_strlit("/v1/diagnostics");
    reveal_strlit("/metrics");
    reveal_strlit("/openapi.json");
    reveal_strlit("/docs");
    lemma_unprotected("/openapi.json"@, 1, 1, 1);
    lemma_unprotected("/docs"@, 1, 1, 1);
}

/// On the main surface a route asks for the admin key exactly if its path is one of those of the
/// namespaces, the diagnostics or the metrics.
pub proof fn lemma_protected_routes_ask_for_the_key(i: int)
    requires
        0 <= i < main_table().len(),
    ensures
        key_needed(main_table()[i].2) <==> is_protected(main_table()[i].1),
{
    lemma_user_routes_are_guarded();
    lemma_platform_routes_are_guarded();
    lemma_admin_routes_are_guarded();
    lemma_docs_routes_are_guarded();
    let user = user_table().len() as int;
    let platform = user + platform_table().len();
    let admin = platform + admin_table().len();
    if i < user {
        assert(main_table()[i] == user_table()[i]);
    } else if i < platform {
        assert(main_table()[i] == platform_table()[i - user]);
    } else if i < admin {
        assert(main_table()[i] == admin_table()[i - platform]);
    } else {
        assert(main_table()[i] == docs_table()[i - admin]);
    }
    assert(is_guarded(main_table()[i]));
}


// Where routes lead.

/// The method that an endpoint answers to. What only reads is a `GET`, what removes is a `DELETE`,
/// a rename is a `PATCH`, and everything else is a `POST`.
pub open spec fn method_of(endpoint: Endpoint) -> Method {
    match endpoint {
        Endpoint::Version => Method::Get,
        Endpoint::Console => Method::Get,
        Endpoint::Health => Method::Get,
        Endpoint::Dump => Method::Get,
        Endpoint::Listen => Method::Get,
        Endpoint::HranaIndex => Method::Get,
        Endpoint::Migrations => Method::Get,
        Endpoint::MigrationDetails => Method::Get,
        Endpoint::Queries => Method::Get,
        Endpoint::Info => Method::Get,
        Endpoint::GetConfig => Method::Get,
        Endpoint::Replication => Method::Get,
        Endpoint::DeleteNamespace => Method::Delete,
        Endpoint::Stats => Method::Get,
        Endpoint::DeleteStats => Method::Delete,
        Endpoint::Diagnostics => Method::Get,
        Endpoint::Metrics => Method::Get,
        Endpoint::OpenApi => Method::Get,
        Endpoint::Docs => Method::Get,
        Endpoint::ListDatabases => Method::Get,
        Endpoint::GetDatabase => Method::Get,
        Endpoint::RenameDatabase => Method::Patch,
        Endpoint::DeleteDatabase => Method::Delete,
        _ => Method::Post,
    }
}

/// How the paths to an endpoint begin, as far as they have to.
pub open spec fn beginning_of(endpoint: Endpoint) -> Seq<char> {
    match endpoint {
        Endpoint::Hrana2Pipeline => "/v2/"@,
        Endpoint::Hrana3Pipeline => "/v3/"@,
        Endpoint::Hrana3Cursor => "/v3/"@,
        Endpoint::Hrana3ProtobufPipeline => "/v3-protobuf/"@,
        Endpoint::Hrana3ProtobufCursor => "/v3-protobuf/"@,
        Endpoint::DevPipeline => "/dev/:namespace/v:version/"@,
        Endpoint::GetConfig => "/v1/namespaces/"@,
        Endpoint::PostConfig => "/v1/namespaces/"@,
        Endpoint::ForkNamespace => "/v1/namespaces/"@,
        Endpoint::CreateNamespace => "/v1/namespaces/"@,
        Endpoint::Checkpoint => "/v1/namespaces/"@,
        Endpoint::Compact => "/v1/namespaces/"@,
        Endpoint::Replication => "/v1/namespaces/"@,
        Endpoint::DeleteNamespace => "/v1/namespaces/"@,
        Endpoint::Stats => "/v1/namespaces/"@,
        Endpoint::DeleteStats => "/v1/namespaces/"@,
        Endpoint::ListDatabases => "/api/"@,
        Endpoint::CreateDatabase => "/api/"@,
        Endpoint::GetDatabase => "/api/"@,
        Endpoint::RenameDatabase => "/api/"@,
        Endpoint::DeleteDatabase => "/api/"@,
        Endpoint::RotateToken => "/api/"@,
        Endpoint::VerifyKey => "/api/"@,
        Endpoint::AdminQuery => "/api/"@,
        Endpoint::Queries => "/api/"@,
        _ => "/"@,
    }
}

/// How the paths to an endpoint end.
pub open spec fn ending_of(endpoint: Endpoint) -> Seq<char> {
    match endpoint {
        Endpoint::Query => "/"@,
        Endpoint::Version => "/version"@,
        Endpoint::Console => "/console"@,
        Endpoint::Health => "/health"@,
        Endpoint::Dump => "/dump"@,
        Endpoint::Listen => "/listen"@,
        Endpoint::Hrana2Pipeline => "/pipeline"@,
        Endpoint::Hrana3Pipeline => "/pipeline"@,
        Endpoint::Hrana3Cursor => "/cursor"@,
        Endpoint::Hrana3ProtobufPipeline => "/pipeline"@,
        Endpoint::Hrana3ProtobufCursor => "/cursor"@,
        Endpoint::DevPipeline => "/pipeline"@,
        Endpoint::Migrations => "/jobs"@,
        Endpoint::MigrationDetails => "/jobs/:job_id"@,
        Endpoint::Queries => "/queries"@,
        Endpoint::Info => "/info"@,
        Endpoint::GetConfig => "/config"@,
        Endpoint::PostConfig => "/config"@,
        Endpoint::ForkNamespace => "/fork/:to"@,
        Endpoint::CreateNamespace => "/create"@,
        Endpoint::Checkpoint => "/checkpoint"@,
        Endpoint::Compact => "/compact"@,
        Endpoint::Replication => "/replication"@,
        Endpoint::DeleteNamespace => "/:namespace"@,
        Endpoint::Stats => "/stats"@,
        Endpoint::DeleteStats => "/stats/:stats_type"@,
        Endpoint::Diagnostics => "/diagnostics"@,
        Endpoint::Metrics => "/metrics"@,
        Endpoint::OpenApi => "/openapi.json"@,
        Endpoint::Docs => "/docs"@,
        Endpoint::ListDatabases => "/databases"@,
        Endpoint::CreateDatabase => "/databases"@,
        Endpoint::GetDatabase => "/databases/:id"@,
        Endpoint::RenameDatabase => "/databases/:id"@,
        Endpoint::DeleteDatabase => "/databases/:id"@,
        Endpoint::RotateToken => "/token"@,
        Endpoint::VerifyKey => "/verify"@,
        Endpoint::AdminQuery => "/query"@,
        Endpoint::HranaIndex => Seq::empty(),
    }
}

/// Whether a text ends with another.
pub open spec fn ends_with(text: Seq<char>, ending: Seq<char>) -> bool {
    ending.len() <= text.len() && text.skip(text.len() - ending.len()) == ending
}

/// Whether a route is one that leads to its endpoint: by its method, and by a path that begins and
/// ends as those to the endpoint do. An index of a stream protocol has no more than the version in
/// its path.
pub open spec fn leads_well(route: (Method, Seq<char>, Endpoint)) -> bool {
    &&& route.0 == method_of(route.2)
    &&& beginning_of(route.2).is_prefix_of(route.1)
    &&& ends_with(route.1, ending_of(route.2))
    &&& route.2 == Endpoint::HranaIndex ==> "/v"@.is_prefix_of(route.1) && !route.1.skip(1).contains(
        '/',
    )
}

proof fn lemma_leads_well(route: (Method, Seq<char>, Endpoint))
    requires
        route.0 == method_of(route.2),
        route.2 != Endpoint::HranaIndex,
        beginning_of(route.2).len() <= route.1.len(),
        ending_of(route.2).len() <= route.1.len(),
        forall|i: int|
            0 <= i < beginning_of(route.2).len() ==> #[trigger] route.1[i] == beginning_of(
                route.2,
            )[i],
        forall|i: int|
            0 <= i < ending_of(route.2).len() ==> #[trigger] ending_of(route.2)[i] == route.1[i
                + route.1.len() - ending_of(route.2).len()],
    ensures
        leads_well(route),
{
    let b = beginning_of(route.2);
    let e = ending_of(route.2);
    assert(b =~= route.1.subrange(0, b.len() as int));
    assert(route.1.skip(route.1.len() - e.len()) =~= e);
}

proof fn lemma_user_routes_lead_well()
    ensures
        forall|i: int| 0 <= i < user_table().len() ==> leads_well(#[trigger] user_table()[i]),
{
    reveal_strlit("/");
    reveal_strlit("/version");
    reveal_strlit("/console");
    reveal_strlit("/health");
    reveal_strlit("/dump");
    reveal_strlit("/beta/listen");
    reveal_strlit("/listen");
    reveal_strlit("/v2");
    reveal_strlit("/v2/pipeline");
    reveal_strlit("/pipeline");
    reveal_strlit("/v2/");
    reveal_strlit("/v3");
    reveal_strlit("/v3/pipeline");
    reveal_strlit("/v3/");
    reveal_strlit("/v3/cursor");
    reveal_strlit("/cursor");
    reveal_strlit("/v3-protobuf");
    reveal_strlit("/v3-protobuf/pipeline");
    reveal_strlit("/v3-protobuf/");
    reveal_strlit("/v3-protobuf/cursor");
    reveal_strlit("/dev/:namespace/v:version/pipeline");
    reveal_strlit("/dev/:namespace/v:version/");
    reveal_strlit("/v1/jobs");
    reveal_strlit("/jobs");
    reveal_strlit("/v1/jobs/:job_id");
    reveal_strlit("/jobs/:job_id");
    reveal_strlit("/v");
    lemma_leads_well((Method::Post, "/"@, Endpoint::Query));
    lemma_leads_well((Method::Get, "/version"@, Endpoint::Version));
    lemma_leads_well((Method::Get, "/console"@, Endpoint::Console));
    lemma_leads_well((Method::Get, "/health"@, Endpoint::Health));
    lemma_leads_well((Method::Get, "/dump"@, Endpoint::Dump));
    lemma_leads_well((Method::Get, "/beta/listen"@, Endpoint::Listen));
    assert("/"@ =~= "/v2"@.subrange(0, 1));
    assert("/v"@ =~= "/v2"@.subrange(0, 2));
    assert("/v2"@.skip(3) =~= Seq::<char>::empty());
    lemma_leads_well((Method::Post, "/v2/pipeline"@, Endpoint::Hrana2Pipeline));
    assert("/"@ =~= "/v3"@.subrange(0, 1));
    assert("/v"@ =~= "/v3"@.subrange(0, 2));
    assert("/v3"@.skip(3) =~= Seq::<char>::empty());
    lemma_leads_well((Method::Post, "/v3/pipeline"@, Endpoint::Hrana3Pipeline));
    lemma_leads_well((Method::Post, "/v3/cursor"@, Endpoint::Hrana3Cursor));
    assert("/"@ =~= "/v3-protobuf"@.subrange(0, 1));
    assert("/v"@ =~= "/v3-protobuf"@.subrange(0, 2));
    assert("/v3-protobuf"@.skip(12) =~= Seq::<char>::empty());
    lemma_leads_well((Method::Post, "/v3-protobuf/pipeline"@, Endpoint::Hrana3ProtobufPipeline));
    lemma_leads_well((Method::Post, "/v3-protobuf/cursor"@, Endpoint::Hrana3ProtobufCursor));
    lemma_leads_well((Method::Post, "/dev/:namespace/v:version/pipeline"@, Endpoint::DevPipeline));
    lemma_leads_well((Method::Get, "/v1/jobs"@, Endpoint::Migrations));
    lemma_leads_well((Method::Get, "/v1/jobs/:job_id"@, Endpoint::MigrationDetails));
}

proof fn lemma_platform_routes_lead_well()
    ensures
        forall|i: int| 0 <= i < platform_table().len() ==> leads_well(#[trigger] platform_table()[i]),
{
    reveal_strlit("/api/queries");
    reveal_strlit("/queries");
    reveal_strlit("/api/");
    reveal_strlit("/info");
    reveal_strlit("/");
    lemma_leads_well((Method::Get, "/api/queries"@, Endpoint::Queries));
    lemma_leads_well((Method::Get, "/info"@, Endpoint::Info));
}

proof fn lemma_admin_routes_lead_well()
    ensures
        forall|i: int| 0 <= i < admin_table().len() ==> leads_well(#[trigger] admin_table()[i]),
{
    reveal_strlit("/v1/namespaces/:namespace/config");
    reveal_strlit("/config");
    reveal_strlit("/v1/namespaces/");
    reveal_strlit("/v1/namespaces/:namespace/fork/:to");
    reveal_strlit("/fork/:to");
    reveal_strlit("/v1/namespaces/:namespace/create");
    reveal_strlit("/create");
    reveal_strlit("/v1/namespaces/:namespace/checkpoint");
    reveal_strlit("/checkpoint");
    reveal_strlit("/v1/namespaces/:namespace/compact");
    reveal_strlit("/compact");
    reveal_strlit("/v1/namespaces/:namespace/replication");
    reveal_strlit("/replication");
    reveal_strlit("/v1/namespaces/:namespace");
    reveal_strlit("/:namespace");
    reveal_strlit("/v1/namespaces/:namespace/stats");
    reveal_strlit("/stats");
    reveal_strlit("/v1/namespaces/:namespace/stats/:stats_type");
    reveal_strlit("/stats/:stats_type");
    reveal_strlit("/v1/diagnostics");
    reveal_strlit("/diagnostics");
    reveal_strlit("/");
    reveal_strlit("/metrics");
    lemma_leads_well((Method::Get, "/v1/namespaces/:namespace/config"@, Endpoint::GetConfig));
    lemma_leads_well((Method::Post, "/v1/namespaces/:namespace/config"@, Endpoint::PostConfig));
    lemma_leads_well((Method::Post, "/v1/namespaces/:namespace/fork/:to"@, Endpoint::ForkNamespace));
    lemma_leads_well((Method::Post, "/v1/namespaces/:namespace/create"@, Endpoint::CreateNamespace));
    lemma_leads_well((Method::Post, "/v1/namespaces/:namespace/checkpoint"@, Endpoint::Checkpoint));
    lemma_leads_well((Method::Post, "/v1/namespaces/:namespace/compact"@, Endpoint::Compact));
    lemma_leads_well((Method::Get, "/v1/namespaces/:namespace/replication"@, Endpoint::Replication));
    lemma_leads_well((Method::Delete, "/v1/namespaces/:namespace"@, Endpoint::DeleteNamespace));
    lemma_leads_well((Method::Get, "/v1/namespaces/:namespace/stats"@, Endpoint::Stats));
    lemma_leads_well((Method::Delete, "/v1/namespaces/:namespace/stats/:stats_type"@, Endpoint::DeleteStats));
    lemma_leads_well((Method::Get, "/v1/diagnostics"@, Endpoint::Diagnostics));
    lemma_leads_well((Method::Get, "/metrics"@, Endpoint::Metrics));
}

proof fn lemma_docs_routes_lead_well()
    ensures
        forall|i: int| 0 <= i < docs_table().len() ==> leads_well(#[trigger] docs_table()[i]),
{
    reveal_strlit("/openapi.json");
    reveal_strlit("/");
    reveal_strlit("/docs");
    lemma_leads_well((Method::Get, "/openapi.json"@, Endpoint::OpenApi));
    lemma_leads_well((Method::Get, "/docs"@, Endpoint::Docs));
}

proof fn lemma_dashboard_routes_lead_well()
    ensures
        forall|i: int| 0 <= i < dashboard_table().len() ==> leads_well(#[trigger] dashboard_table()[i]),
{
    reveal_strlit("/api/databases");
    reveal_strlit("/databases");
    reveal_strlit("/api/");
    reveal_strlit("/api/databases/:id");
    reveal_strlit("/databases/:id");
    reveal_strlit("/api/databases/:id/token");
    reveal_strlit("/token");
    reveal_strlit("/api/auth/verify");
    reveal_strlit("/verify");
    reveal_strlit("/api/query");
    reveal_strlit("/query");
    lemma_leads_well((Method::Get, "/api/databases"@, Endpoint::ListDatabases));
    lemma_leads_well((Method::Post, "/api/databases"@, Endpoint::CreateDatabase));
    lemma_leads_well((Method::Get, "/api/databases/:id"@, Endpoint::GetDatabase));
    lemma_leads_well((Method::Patch, "/api/databases/:id"@, Endpoint::RenameDatabase));
    lemma_leads_well((Method::Delete, "/api/databases/:id"@, Endpoint::DeleteDatabase));
    lemma_leads_well((Method::Post, "/api/databases/:id/token"@, Endpoint::RotateToken));
    lemma_leads_well((Method::Post, "/api/auth/verify"@, Endpoint::VerifyKey));
    lemma_leads_well((Method::Post, "/api/query"@, Endpoint::AdminQuery));
}

/// Every route of the main surface and of the dashboard leads to the endpoint that its method and
/// its path name.
pub proof fn lemma_routes_lead_well(main: Vec<Route>, dashboard: Vec<Route>, i: int, j: int)
    requires
        call_ensures(main_routes, (), main),
        call_ensures(admin_router, (), dashboard),
        0 <= i < main@.len(),
        0 <= j < dashboard@.len(),
    ensures
        leads_well(main@[i]@),
        leads_well(dashboard@[j]@),
{
    lemma_user_routes_lead_well();
    lemma_platform_routes_lead_well();
    lemma_admin_routes_lead_well();
    lemma_docs_routes_lead_well();
    lemma_dashboard_routes_lead_well();
    assert(table(main@).len() == main@.len());
    assert(table(dashboard@).len() == dashboard@.len());
    assert(table(main@)[i] == main@[i]@);
    assert(table(dashboard@)[j] == dashboard@[j]@);
    assert(main@.len() == main_table().len());
    assert(dashboard@.len() == dashboard_table().len());
    let u = user_table().len() as int;
    let p = u + platform_table().len();
    let a = p + admin_table().len();
    if i < u {
        assert(main_table()[i] == user_table()[i]);
    } else if i < p {
        assert(main_table()[i] == platform_table()[i - u]);
    } else if i < a {
        assert(main_table()[i] == admin_table()[i - p]);
    } else {
        assert(main_table()[i] == docs_table()[i - a]);
    }
}

/// On the main surface a request to a protected path is let through exactly if there is an admin
/// key and the request carries it, and a request to any other path always.
pub proof fn lemma_guard_protects_paths(
    routes: Vec<Route>,
    i: int,
    admin_key: Option<&str>,
    headers: &hyper::HeaderMap<hyper::header::HeaderValue>,
    r: Result<(), ErrorReply>,
)
    requires
        call_ensures(main_routes, (), routes),
        0 <= i < routes@.len(),
        call_ensures(guard, (routes@[i].endpoint, admin_key, headers), r),
    ensures
        ({
            let path = routes@[i].path@;
            let protected = "/v1/namespaces/"@.is_prefix_of(path) || path == "/v1/diagnostics"@
                || path == "/metrics"@;
            &&& !protected ==> r is Ok
            &&& protected ==> (r is Ok <==> (admin_key matches Some(key) && carries_key(
                header_text(*headers, "authorization"@),
                key@,
            )))
            &&& r matches Err(e) ==> e.status.spec_code() == if admin_key is Some {
                401u16
            } else {
                503u16
            }
        }),
{
    assert(table(routes@)[i] == routes@[i]@);
    lemma_protected_routes_ask_for_the_key(i);
}

} // verus!
