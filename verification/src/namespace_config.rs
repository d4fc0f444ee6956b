//! The configuration of namespaces, and the API that manages it.

use vstd::prelude::*;

use crate::error::{Error, ErrorKind};
use crate::namespace::NamespaceName;
use crate::text::{opt_string, str_eq};

verus! {

/// The size of a database page in bytes.
pub const LIBSQL_PAGE_SIZE: u64 = 4096;

/// A span of time.
#[derive(Clone, Copy, Debug, PartialEq, Eq, Structural)]
pub struct Span {
    pub secs: u64,
    pub nanos: u32,
}

/// The configuration of a namespace, with durability modes of type `D`.
#[derive(Debug)]
pub struct DatabaseConfig<D> {
    pub block_reads: bool,
    pub block_writes: bool,
    pub block_reason: Option<String>,
    pub max_db_pages: u64,
    /// A URL in the form in which it is written out.
    pub heartbeat_url: Option<String>,
    pub bottomless_db_id: Option<String>,
    pub jwt_key: Option<String>,
    pub txn_timeout: Option<Span>,
    pub max_row_size: u64,
    pub is_shared_schema: bool,
    pub shared_schema_name: Option<NamespaceName>,
    pub allow_attach: bool,
    pub durability_mode: D,
}

/// The configuration of a namespace as clients see it.
#[derive(Debug)]
pub struct HttpDatabaseConfig<D> {
    pub block_reads: bool,
    pub block_writes: bool,
    pub block_reason: Option<String>,
    /// A number of bytes.
    pub max_db_size: Option<u64>,
    pub heartbeat_url: Option<String>,
    pub jwt_key: Option<String>,
    pub allow_attach: bool,
    pub txn_timeout_s: Option<u64>,
    pub durability_mode: Option<D>,
}

/// A request to create a namespace.
#[derive(Debug)]
pub struct CreateNamespaceReq<D> {
    /// A number of bytes.
    pub max_db_size: Option<u64>,
    pub heartbeat_url: Option<String>,
    pub bottomless_db_id: Option<String>,
    pub jwt_key: Option<String>,
    pub txn_timeout_s: Option<u64>,
    pub max_row_size: Option<u64>,
    /// Whether the namespace is used solely for schema updates of other ones.
    pub shared_schema: bool,
    /// The namespace whose schema is shared.
    pub shared_schema_name: Option<NamespaceName>,
    pub allow_attach: bool,
    pub durability_mode: Option<D>,
}

/// From which state a namespace is created.
#[derive(Clone, Copy, Debug, PartialEq, Eq, Structural)]
pub enum RestoreOption {
    /// The latest one.
    Latest,
    /// The one at a point in time, in seconds and nanoseconds since the Unix epoch.
    PointInTime { secs: i64, nanos: u32 },
}

// URLs.

/// What comes of parsing a URL: its serialization, or the text of the error.
pub uninterp spec fn url_parse(text: Seq<char>) -> Result<Seq<char>, Seq<char>>;

/// `Url::parse` reads a URL from its text alone. A URL is handed on as its serialization, an
/// error as its description.
#[verifier::external_body]
fn parse_url(text: &str) -> (r: Result<String, String>)
    ensures
        (match r {
            Ok(url) => Ok::<Seq<char>, Seq<char>>(url@),
            Err(e) => Err::<Seq<char>, Seq<char>>(e@),
        }) == url_parse(text@),
{
    match url::Url::parse(text) {
        Ok(url) => Ok(String::from(url)),
        Err(e) => Err(e.to_string()),
    }
}

/// What comes of an optional URL.
pub open spec fn heartbeat_outcome(url: Option<Seq<char>>) -> Result<
    Option<Seq<char>>,
    Seq<char>,
> {
    match url {
        None => Ok(None),
        Some(text) => match url_parse(text) {
            Ok(u) => Ok(Some(u)),
            Err(e) => Err(e),
        },
    }
}

fn parse_heartbeat_url(url: &Option<String>) -> (r: Result<Option<String>, Error>)
    ensures
        match heartbeat_outcome(opt_string(*url)) {
            Ok(u) => r matches Ok(parsed) && opt_string(parsed) == u,
            Err(message) => r matches Err(e) && e@ == (ErrorKind::UrlParseError, message),
        },
{
    match url {
        None => Ok(None),
        Some(text) => match parse_url(text.as_str()) {
            Ok(u) => Ok(Some(u)),
            Err(message) => Err(Error { kind: ErrorKind::UrlParseError, message }),
        },
    }
}

// Read and change.

/// Whole seconds as a span of time.
pub open spec fn span_of(secs: Option<u64>) -> Option<Span> {
    match secs {
        Some(s) => Some(Span { secs: s, nanos: 0 }),
        None => None,
    }
}

/// The whole seconds of a span of time.
pub open spec fn seconds_of(span: Option<Span>) -> Option<u64> {
    match span {
        Some(s) => Some(s.secs),
        None => None,
    }
}

fn to_span(secs: Option<u64>) -> (r: Option<Span>)
    ensures
        r == span_of(secs),
{
    match secs {
        Some(s) => Some(Span { secs: s, nanos: 0 }),
        None => None,
    }
}

fn clone_text(text: &Option<String>) -> (r: Option<String>)
    ensures
        r == *text,
{
    match text {
        Some(s) => Some(s.clone()),
        None => None,
    }
}

/// What a client sees of a configuration.
pub open spec fn http_config<D>(config: DatabaseConfig<D>) -> HttpDatabaseConfig<D> {
    HttpDatabaseConfig {
        block_reads: config.block_reads,
        block_writes: config.block_writes,
        block_reason: config.block_reason,
        max_db_size: Some((config.max_db_pages * LIBSQL_PAGE_SIZE) as u64),
        heartbeat_url: config.heartbeat_url,
        jwt_key: config.jwt_key,
        allow_attach: config.allow_attach,
        txn_timeout_s: seconds_of(config.txn_timeout),
        durability_mode: Some(config.durability_mode),
    }
}

/// Shows a configuration to a client.
pub fn handle_get_config<D: Copy>(config: &DatabaseConfig<D>) -> (r: HttpDatabaseConfig<D>)
    requires
        config.max_db_pages * LIBSQL_PAGE_SIZE <= u64::MAX,
    ensures
        r == http_config(*config),
{
    HttpDatabaseConfig {
        block_reads: config.block_reads,
        block_writes: config.block_writes,
        block_reason: clone_text(&config.block_reason),
        max_db_size: Some(config.max_db_pages * LIBSQL_PAGE_SIZE),
        heartbeat_url: clone_text(&config.heartbeat_url),
        jwt_key: clone_text(&config.jwt_key),
        allow_attach: config.allow_attach,
        txn_timeout_s: match config.txn_timeout {
            Some(span) => Some(span.secs),
            None => None,
        },
        durability_mode: Some(config.durability_mode),
    }
}

/// Whether `updated` is `current` after a client posted `req`, whose heartbeat URL, if it has
/// one, is `url`. A size, a URL and a mode that are absent keep the old ones.
pub open spec fn is_posted<D>(
    updated: DatabaseConfig<D>,
    current: DatabaseConfig<D>,
    req: HttpDatabaseConfig<D>,
    url: Option<Seq<char>>,
) -> bool {
    &&& updated.block_reads == req.block_reads
    &&& updated.block_writes == req.block_writes
    &&& updated.block_reason == req.block_reason
    &&& updated.max_db_pages == match req.max_db_size {
        Some(size) => size / LIBSQL_PAGE_SIZE,
        None => current.max_db_pages,
    }
    &&& opt_string(updated.heartbeat_url) == match url {
        Some(u) => Some(u),
        None => opt_string(current.heartbeat_url),
    }
    &&& updated.bottomless_db_id == current.bottomless_db_id
    &&& updated.jwt_key == req.jwt_key
    &&& updated.txn_timeout == span_of(req.txn_timeout_s)
    &&& updated.max_row_size == current.max_row_size
    &&& updated.is_shared_schema == current.is_shared_schema
    &&& updated.shared_schema_name == current.shared_schema_name
    &&& updated.allow_attach == req.allow_attach
    &&& updated.durability_mode == match req.durability_mode {
        Some(mode) => mode,
        None => current.durability_mode,
    }
}

/// Changes a configuration as a client asks. Nothing changes when the heartbeat URL is not a
/// URL.
pub fn handle_post_config<D>(current: DatabaseConfig<D>, req: HttpDatabaseConfig<D>) -> (r: Result<
    DatabaseConfig<D>,
    Error,
>)
    ensures
        match heartbeat_outcome(opt_string(req.heartbeat_url)) {
            Ok(url) => r matches Ok(updated) && is_posted(updated, current, req, url),
            Err(message) => r matches Err(e) && e@ == (ErrorKind::UrlParseError, message),
        },
{
    match parse_heartbeat_url(&req.heartbeat_url) {
        Ok(url) => Ok(posted_config(current, req, url)),
        Err(e) => Err(e),
    }
}

/// Changes a configuration as a client asks, whose heartbeat URL, if there is one, is `url`.
pub fn posted_config<D>(
    current: DatabaseConfig<D>,
    req: HttpDatabaseConfig<D>,
    url: Option<String>,
) -> (r: DatabaseConfig<D>)
    ensures
        is_posted(r, current, req, opt_string(url)),
{
    let max_db_pages = match req.max_db_size {
        Some(size) => size / LIBSQL_PAGE_SIZE,
        None => current.max_db_pages,
    };
    let heartbeat_url = match url {
        Some(u) => Some(u),
        None => current.heartbeat_url,
    };
    let durability_mode = match req.durability_mode {
        Some(mode) => mode,
        None => current.durability_mode,
    };
    DatabaseConfig {
        block_reads: req.block_reads,
        block_writes: req.block_writes,
        block_reason: req.block_reason,
        max_db_pages,
        heartbeat_url,
        bottomless_db_id: current.bottomless_db_id,
        jwt_key: req.jwt_key,
        txn_timeout: to_span(req.txn_timeout_s),
        max_row_size: current.max_row_size,
        is_shared_schema: current.is_shared_schema,
        shared_schema_name: current.shared_schema_name,
        allow_attach: req.allow_attach,
        durability_mode,
    }
}

/// Whether `updated` is `current` with another token key.
pub open spec fn has_jwt_key<D>(
    updated: DatabaseConfig<D>,
    current: DatabaseConfig<D>,
    jwt_key: Seq<char>,
) -> bool {
    opt_string(updated.jwt_key) == Some(jwt_key) && updated == (DatabaseConfig {
        jwt_key: updated.jwt_key,
        ..current
    })
}

/// Gives a configuration the public key that tokens are checked with.
pub fn update_jwt_key<D>(config: DatabaseConfig<D>, jwt_key: &str) -> (r: DatabaseConfig<D>)
    ensures
        has_jwt_key(r, config, jwt_key@),
{
    DatabaseConfig { jwt_key: Some(jwt_key.to_owned()), ..config }
}

// Create.

/// A step of the creation of a namespace.
pub enum CreateNamespaceStep<D> {
    /// The request is refused.
    Refuse(Error),
    /// Look whether the namespace whose schema is shared exists.
    CheckSchema { schema: NamespaceName, req: CreateNamespaceReq<D> },
    /// Create the namespace from this state, with this configuration.
    Create { restore: RestoreOption, config: DatabaseConfig<D> },
}

/// Why a request to create a namespace is refused at once, if it is.
pub open spec fn schema_conflict<D>(req: CreateNamespaceReq<D>) -> Option<(ErrorKind, Seq<char>)> {
    if req.shared_schema_name is Some && req.bottomless_db_id is Some {
        Some(
            (
                ErrorKind::SharedSchemaUsageError,
                "database using shared schema database cannot be created from a dump"@,
            ),
        )
    } else if req.shared_schema_name is Some && req.shared_schema {
        Some(
            (
                ErrorKind::SharedSchemaCreationError,
                "shared schema database cannot reference another shared schema"@,
            ),
        )
    } else {
        None
    }
}

/// Whether `config` is what a request asks for, over the default configuration and the default
/// durability mode, with the heartbeat URL `url`.
pub open spec fn is_requested_config<D>(
    config: DatabaseConfig<D>,
    req: CreateNamespaceReq<D>,
    default: DatabaseConfig<D>,
    default_mode: D,
    url: Option<Seq<char>>,
) -> bool {
    &&& config.block_reads == default.block_reads
    &&& config.block_writes == default.block_writes
    &&& config.block_reason == default.block_reason
    &&& config.max_db_pages == match req.max_db_size {
        Some(size) => size / LIBSQL_PAGE_SIZE,
        None => default.max_db_pages,
    }
    &&& opt_string(config.heartbeat_url) == url
    &&& config.bottomless_db_id == req.bottomless_db_id
    &&& config.jwt_key == match req.jwt_key {
        Some(key) => Some(key),
        None => default.jwt_key,
    }
    &&& config.txn_timeout == span_of(req.txn_timeout_s)
    &&& config.max_row_size == match req.max_row_size {
        Some(size) => size,
        None => default.max_row_size,
    }
    &&& config.is_shared_schema == req.shared_schema
    &&& config.shared_schema_name == match req.shared_schema_name {
        Some(schema) => Some(schema),
        None => default.shared_schema_name,
    }
    &&& config.allow_attach == req.allow_attach
    &&& config.durability_mode == match req.durability_mode {
        Some(mode) => mode,
        None => default_mode,
    }
}

/// Whether a step ends a creation in which nothing stands against the schema. The namespace is
/// created from its latest state.
pub open spec fn is_creation<D>(
    step: CreateNamespaceStep<D>,
    req: CreateNamespaceReq<D>,
    default: DatabaseConfig<D>,
    default_mode: D,
) -> bool {
    match heartbeat_outcome(opt_string(req.heartbeat_url)) {
        Ok(url) => step matches CreateNamespaceStep::Create { restore, config } && restore
            == RestoreOption::Latest && is_requested_config(
            config,
            req,
            default,
            default_mode,
            url,
        ),
        Err(message) => step matches CreateNamespaceStep::Refuse(e) && e@ == (
            ErrorKind::UrlParseError,
            message,
        ),
    }
}

/// Starts to create a namespace.
pub fn handle_create_namespace<D>(
    req: CreateNamespaceReq<D>,
    default: DatabaseConfig<D>,
    default_mode: D,
) -> (r: CreateNamespaceStep<D>)
    ensures
        match schema_conflict(req) {
            Some(error) => r matches CreateNamespaceStep::Refuse(e) && e@ == error,
            None => match req.shared_schema_name {
                Some(schema) => r == (CreateNamespaceStep::CheckSchema { schema, req }),
                None => is_creation(r, req, default, default_mode),
            },
        },
{
    match &req.shared_schema_name {
        None => create_with_url(req, default, default_mode),
        Some(name) => {
            if req.bottomless_db_id.is_some() {
                return CreateNamespaceStep::Refuse(
                    Error::new(
                        ErrorKind::SharedSchemaUsageError,
                        "database using shared schema database cannot be created from a dump",
                    ),
                );
            }
            if req.shared_schema {
                return CreateNamespaceStep::Refuse(
                    Error::new(
                        ErrorKind::SharedSchemaCreationError,
                        "shared schema database cannot reference another shared schema",
                    ),
                );
            }
            let schema = name.clone();
            CreateNamespaceStep::CheckSchema { schema, req }
        },
    }
}

/// Goes on once it is known whether the namespace whose schema is shared exists.
pub fn create_after_check<D>(
    schema: &NamespaceName,
    found: bool,
    req: CreateNamespaceReq<D>,
    default: DatabaseConfig<D>,
    default_mode: D,
) -> (r: CreateNamespaceStep<D>)
    ensures
        if found {
            is_creation(r, req, default, default_mode)
        } else {
            r matches CreateNamespaceStep::Refuse(e) && e@ == (
                ErrorKind::NamespaceDoesntExist,
                schema@,
            )
        },
{
    if found {
        create_with_url(req, default, default_mode)
    } else {
        CreateNamespaceStep::Refuse(Error::new(ErrorKind::NamespaceDoesntExist, schema.as_str()))
    }
}

fn create_with_url<D>(
    req: CreateNamespaceReq<D>,
    default: DatabaseConfig<D>,
    default_mode: D,
) -> (r: CreateNamespaceStep<D>)
    ensures
        is_creation(r, req, default, default_mode),
{
    match parse_heartbeat_url(&req.heartbeat_url) {
        Ok(url) => CreateNamespaceStep::Create {
            restore: RestoreOption::Latest,
            config: requested_config(req, default, default_mode, url),
        },
        Err(e) => CreateNamespaceStep::Refuse(e),
    }
}

/// The configuration that a request asks for, with the heartbeat URL `url`.
pub fn requested_config<D>(
    req: CreateNamespaceReq<D>,
    default: DatabaseConfig<D>,
    default_mode: D,
    url: Option<String>,
) -> (r: DatabaseConfig<D>)
    ensures
        is_requested_config(r, req, default, default_mode, opt_string(url)),
{
    let max_db_pages = match req.max_db_size {
        Some(size) => size / LIBSQL_PAGE_SIZE,
        None => default.max_db_pages,
    };
    let jwt_key = match req.jwt_key {
        Some(key) => Some(key),
        None => default.jwt_key,
    };
    let max_row_size = match req.max_row_size {
        Some(size) => size,
        None => default.max_row_size,
    };
    let shared_schema_name = match req.shared_schema_name {
        Some(schema) => Some(schema),
        None => default.shared_schema_name,
    };
    let durability_mode = match req.durability_mode {
        Some(mode) => mode,
        None => default_mode,
    };
    DatabaseConfig {
        block_reads: default.block_reads,
        block_writes: default.block_writes,
        block_reason: default.block_reason,
        max_db_pages,
        heartbeat_url: url,
        bottomless_db_id: req.bottomless_db_id,
        jwt_key,
        txn_timeout: to_span(req.txn_timeout_s),
        max_row_size,
        is_shared_schema: req.shared_schema,
        shared_schema_name,
        allow_attach: req.allow_attach,
        durability_mode,
    }
}

// Fork and delete.

/// A request to fork a namespace as it was at a point in time.
#[derive(Debug)]
pub struct ForkNamespaceReq<T> {
    pub timestamp: T,
}

/// The configuration of a fork and its point in time, if the request names one. The
/// configuration is that of the namespace it is forked from, which must not be a shared schema.
pub fn handle_fork_namespace<D, T>(
    from_config: DatabaseConfig<D>,
    req: Option<ForkNamespaceReq<T>>,
) -> (r: Result<(DatabaseConfig<D>, Option<T>), Error>)
    ensures
        if from_config.is_shared_schema {
            r matches Err(e) && e@ == (
                ErrorKind::SharedSchemaUsageError,
                "database cannot be forked from a shared schema"@,
            )
        } else {
            r == Ok::<(DatabaseConfig<D>, Option<T>), Error>(
                (
                    from_config,
                    match req {
                        Some(q) => Some(q.timestamp),
                        None => None,
                    },
                ),
            )
        },
{
    if from_config.is_shared_schema {
        return Err(
            Error::new(
                ErrorKind::SharedSchemaUsageError,
                "database cannot be forked from a shared schema",
            ),
        );
    }
    let timestamp = match req {
        Some(q) => Some(q.timestamp),
        None => None,
    };
    Ok((from_config, timestamp))
}

/// A request to delete a namespace.
#[derive(Debug, Default)]
pub struct DeleteNamespaceReq {
    pub keep_backup: bool,
}

/// Whether a deletion removes the backups too: it does, unless the request keeps them.
pub fn handle_delete_namespace(payload: Option<DeleteNamespaceReq>) -> (prune_all: bool)
    ensures
        prune_all == !(payload matches Some(req) && req.keep_backup),
{
    match payload {
        Some(req) => !req.keep_backup,
        None => true,
    }
}

// Statistics and diagnostics.

/// The statistics that a request resets.
#[derive(Clone, Copy, Debug, PartialEq, Eq, Structural)]
pub enum StatsReset {
    TopQueries,
    SlowestQueries,
}

/// Which statistics a type names.
pub open spec fn stats_reset(stats_type: Seq<char>) -> Option<StatsReset> {
    if stats_type == "top"@ {
        Some(StatsReset::TopQueries)
    } else if stats_type == "slowest"@ {
        Some(StatsReset::SlowestQueries)
    } else {
        None
    }
}

/// Reads the type of the statistics to reset.
pub fn handle_delete_stats(stats_type: &str) -> (r: Result<StatsReset, Error>)
    ensures
        match stats_reset(stats_type@) {
            Some(reset) => r == Ok::<StatsReset, Error>(reset),
            None => r matches Err(e) && e@ == (ErrorKind::Internal, "Invalid stats type"@),
        },
{
    if str_eq(stats_type, "top") {
        Ok(StatsReset::TopQueries)
    } else if str_eq(stats_type, "slowest") {
        Ok(StatsReset::SlowestQueries)
    } else {
        Err(Error::new(ErrorKind::Internal, "Invalid stats type"))
    }
}

/// The state of a stream.
#[derive(Debug)]
pub enum StreamHandle {
    /// The stream waits for a request. The text is that of its connection, if that is open.
    Available(Option<String>),
    Acquired,
    Expired,
}

/// What is reported of a stream.
pub open spec fn stream_info(handle: StreamHandle) -> Seq<char> {
    match handle {
        StreamHandle::Available(Some(diagnostics)) => diagnostics@,
        StreamHandle::Available(None) => "[BUG] available-but-closed"@,
        StreamHandle::Acquired => "acquired"@,
        StreamHandle::Expired => "expired"@,
    }
}

/// Reports on streams, in their order.
pub fn handle_diagnostics(handles: Vec<StreamHandle>) -> (r: Vec<String>)
    ensures
        r@.len() == handles@.len(),
        forall|i: int| #![trigger r@[i]] 0 <= i < r@.len() ==> r@[i]@ == stream_info(handles@[i]),
{
    let mut diagnostics: Vec<String> = Vec::new();
    let ghost all = handles@;
    for handle in it: handles
        invariant
            it.seq() == all,
            diagnostics@.len() == it.index(),
            forall|i: int| #![trigger diagnostics@[i]]
                0 <= i < diagnostics@.len() ==> diagnostics@[i]@ == stream_info(all[i]),
    {
        let info = match handle {
            StreamHandle::Available(Some(text)) => text,
            StreamHandle::Available(None) => "[BUG] available-but-closed".to_owned(),
            StreamHandle::Acquired => "acquired".to_owned(),
            StreamHandle::Expired => "expired".to_owned(),
        };
        diagnostics.push(info);
    }
    diagnostics
}

/// The text of the index page.
pub fn handle_get_index() -> (r: &'static str)
    ensures
        r@ == "Welcome to the sqld admin API"@,
{
    "Welcome to the sqld admin API"
}

// Laws.

/// A size that a client posts is rounded down to whole pages: what is shown afterwards is the
/// largest multiple of the page size that is not larger.
pub proof fn lemma_size_is_rounded_down<D>(
    current: DatabaseConfig<D>,
    req: HttpDatabaseConfig<D>,
    url: Option<Seq<char>>,
    updated: DatabaseConfig<D>,
    size: u64,
)
    requires
        is_posted(updated, current, req, url),
        req.max_db_size == Some(size),
    ensures
        http_config(updated).max_db_size matches Some(shown) && shown <= size && size - shown
            < LIBSQL_PAGE_SIZE && shown % LIBSQL_PAGE_SIZE == 0,
{
}

/// A client that posts what it was shown changes nothing, but that a transaction timeout loses
/// its fraction of a second. The heartbeat URL must parse to itself.
pub proof fn lemma_post_what_was_shown<D>(config: DatabaseConfig<D>, updated: DatabaseConfig<D>)
    requires
        config.max_db_pages * LIBSQL_PAGE_SIZE <= u64::MAX,
        config.heartbeat_url matches Some(url) ==> url_parse(url@) == Ok::<Seq<char>, Seq<char>>(
            url@,
        ),
        is_posted(
            updated,
            config,
            http_config(config),
            heartbeat_outcome(opt_string(http_config(config).heartbeat_url))->Ok_0,
        ),
    ensures
        opt_string(updated.heartbeat_url) == opt_string(config.heartbeat_url),
        updated == (DatabaseConfig {
            heartbeat_url: updated.heartbeat_url,
            txn_timeout: span_of(seconds_of(config.txn_timeout)),
            ..config
        }),
{
}

/// A client that posts a configuration is then shown what it posted, as far as the post has
/// it: everything but the size, which is rounded to pages.
pub proof fn lemma_shown_is_what_was_posted<D>(
    current: DatabaseConfig<D>,
    req: HttpDatabaseConfig<D>,
    url: Option<Seq<char>>,
    updated: DatabaseConfig<D>,
)
    requires
        is_posted(updated, current, req, url),
    ensures
        ({
            let shown = http_config(updated);
            &&& shown.block_reads == req.block_reads
            &&& shown.block_writes == req.block_writes
            &&& shown.block_reason == req.block_reason
            &&& shown.jwt_key == req.jwt_key
            &&& shown.allow_attach == req.allow_attach
            &&& shown.txn_timeout_s == req.txn_timeout_s
            &&& url is Some ==> opt_string(shown.heartbeat_url) == url
            &&& req.durability_mode is Some ==> shown.durability_mode == req.durability_mode
        }),
{
}

/// A namespace that is created never both is a shared schema and uses one, unless the default
/// configuration uses one.
pub proof fn lemma_no_chained_schemas<D>(
    req: CreateNamespaceReq<D>,
    default: DatabaseConfig<D>,
    default_mode: D,
    url: Option<Seq<char>>,
    config: DatabaseConfig<D>,
)
    requires
        schema_conflict(req) is None,
        is_requested_config(config, req, default, default_mode, url),
        default.shared_schema_name is None,
    ensures
        !(config.is_shared_schema && config.shared_schema_name is Some),
        !(config.bottomless_db_id is Some && config.shared_schema_name is Some),
{
}


/// Whether `config` holds `value` where a request names one, and what was there before where it
/// does not.
pub open spec fn asked_or_kept<T>(asked: Option<T>, before: T, value: T) -> bool {
    &&& asked matches Some(v) ==> value == v
    &&& asked is None ==> value == before
}

/// Whether a number of pages is what a size in bytes has room for, if there is a size, and what it
/// was before if there is none.
pub open spec fn has_room(size: Option<u64>, before: u64, pages: u64) -> bool {
    &&& size matches Some(bytes) ==> pages * 4096 <= bytes < (pages + 1) * 4096
    &&& size is None ==> pages == before
}

/// Whether a timeout is the given number of whole seconds, or none.
pub open spec fn is_seconds(secs: Option<u64>, timeout: Option<Span>) -> bool {
    &&& secs is Some <==> timeout is Some
    &&& timeout matches Some(span) ==> secs == Some(span.secs) && span.nanos == 0
}

/// Whether an optional URL is what a text was read as.
pub open spec fn is_read_url(text: Option<String>, url: Option<String>) -> bool {
    match text {
        None => url is None,
        Some(t) => url matches Some(u) && url_parse(t@) == Ok::<Seq<char>, Seq<char>>(u@),
    }
}

/// Whether a namespace is created with a configuration.
pub open spec fn is_created_with<D>(
    req: CreateNamespaceReq<D>,
    default: DatabaseConfig<D>,
    default_mode: D,
    restore: RestoreOption,
    config: DatabaseConfig<D>,
) -> bool {
    ||| call_ensures(
        handle_create_namespace::<D>,
        (req, default, default_mode),
        CreateNamespaceStep::Create { restore, config },
    )
    ||| exists|schema: &NamespaceName| #[trigger]
        call_ensures(
            create_after_check::<D>,
            (schema, true, req, default, default_mode),
            CreateNamespaceStep::Create { restore, config },
        )
}

/// What a request to create a namespace does not speak of stays as in the default configuration:
/// the blocks always, and size, key, row size, schema and mode where it names none. What it speaks
/// of is as it asks. The namespace starts from its latest state.
pub proof fn lemma_created_over_the_default<D>(
    req: CreateNamespaceReq<D>,
    default: DatabaseConfig<D>,
    default_mode: D,
    restore: RestoreOption,
    config: DatabaseConfig<D>,
)
    requires
        is_created_with(req, default, default_mode, restore, config),
    ensures
        restore == RestoreOption::Latest,
        config.block_reads == default.block_reads,
        config.block_writes == default.block_writes,
        config.block_reason == default.block_reason,
        has_room(req.max_db_size, default.max_db_pages, config.max_db_pages),
        asked_or_kept(req.max_row_size, default.max_row_size, config.max_row_size),
        asked_or_kept(req.durability_mode, default_mode, config.durability_mode),
        req.jwt_key is Some ==> config.jwt_key == req.jwt_key,
        req.jwt_key is None ==> config.jwt_key == default.jwt_key,
        req.shared_schema_name is Some ==> config.shared_schema_name == req.shared_schema_name,
        req.shared_schema_name is None ==> config.shared_schema_name == default.shared_schema_name,
        config.bottomless_db_id == req.bottomless_db_id,
        config.is_shared_schema == req.shared_schema,
        config.allow_attach == req.allow_attach,
        is_seconds(req.txn_timeout_s, config.txn_timeout),
        is_read_url(req.heartbeat_url, config.heartbeat_url),
{
}

/// Creating a namespace with an empty request gives the default configuration, up to what every
/// request sets: no heartbeat, no dump, no timeout, no shared schema of its own, no attaching.
pub proof fn lemma_empty_request_gives_the_default<D>(
    req: CreateNamespaceReq<D>,
    default: DatabaseConfig<D>,
    restore: RestoreOption,
    config: DatabaseConfig<D>,
)
    requires
        is_created_with(req, default, default.durability_mode, restore, config),
        req == (CreateNamespaceReq::<D> {
            max_db_size: None,
            heartbeat_url: None,
            bottomless_db_id: None,
            jwt_key: None,
            txn_timeout_s: None,
            max_row_size: None,
            shared_schema: false,
            shared_schema_name: None,
            allow_attach: false,
            durability_mode: None,
        }),
    ensures
        config == (DatabaseConfig {
            heartbeat_url: None,
            bottomless_db_id: None,
            txn_timeout: None,
            is_shared_schema: false,
            allow_attach: false,
            ..default
        }),
{
}

/// The configuration that a request asks for keeps the blocks of the default one, and takes the
/// heartbeat URL that was read.
pub proof fn lemma_requested_config<D>(
    req: CreateNamespaceReq<D>,
    default: DatabaseConfig<D>,
    default_mode: D,
    url: Option<String>,
    r: DatabaseConfig<D>,
)
    requires
        call_ensures(requested_config::<D>, (req, default, default_mode, url), r),
    ensures
        r.block_reads == default.block_reads,
        r.block_writes == default.block_writes,
        r.block_reason == default.block_reason,
        opt_string(r.heartbeat_url) == opt_string(url),
        has_room(req.max_db_size, default.max_db_pages, r.max_db_pages),
        asked_or_kept(req.max_row_size, default.max_row_size, r.max_row_size),
        asked_or_kept(req.durability_mode, default_mode, r.durability_mode),
        is_seconds(req.txn_timeout_s, r.txn_timeout),
{
}

/// Whether a heartbeat URL is no URL.
pub open spec fn is_bad_url(text: Option<String>) -> bool {
    text matches Some(t) && url_parse(t@) is Err
}

/// A request that uses a shared schema may neither come from a dump nor be a shared schema itself,
/// and waits until the schema was looked for. Every other request creates the namespace, unless
/// its heartbeat URL is no URL.
pub proof fn lemma_creation_is_refused<D>(
    req: CreateNamespaceReq<D>,
    default: DatabaseConfig<D>,
    default_mode: D,
    schema: &NamespaceName,
    found: bool,
    a: CreateNamespaceStep<D>,
    b: CreateNamespaceStep<D>,
)
    requires
        call_ensures(handle_create_namespace::<D>, (req, default, default_mode), a),
        call_ensures(create_after_check::<D>, (schema, found, req, default, default_mode), b),
    ensures
        req.shared_schema_name is Some && (req.bottomless_db_id is Some || req.shared_schema)
            ==> a is Refuse && a->Refuse_0@ == if req.bottomless_db_id is Some {
            (
                ErrorKind::SharedSchemaUsageError,
                "database using shared schema database cannot be created from a dump"@,
            )
        } else {
            (
                ErrorKind::SharedSchemaCreationError,
                "shared schema database cannot reference another shared schema"@,
            )
        },
        req.shared_schema_name is Some && req.bottomless_db_id is None && !req.shared_schema ==> (
        a matches CreateNamespaceStep::CheckSchema { schema: s, req: q } && Some(s)
            == req.shared_schema_name && q == req),
        req.shared_schema_name is None ==> (a is Refuse <==> is_bad_url(req.heartbeat_url)),
        req.shared_schema_name is None && !is_bad_url(req.heartbeat_url) ==> a is Create,
        !found ==> (b matches CreateNamespaceStep::Refuse(e) && e@ == (
            ErrorKind::NamespaceDoesntExist,
            schema@,
        )),
        found ==> (b is Refuse <==> is_bad_url(req.heartbeat_url)),
        found && !is_bad_url(req.heartbeat_url) ==> b is Create,
        a is Refuse && req.shared_schema_name is None ==> a->Refuse_0.kind
            == ErrorKind::UrlParseError,
{
}

/// A post sets the blocks, the reason, the key, attaching and the timeout to what it says; size,
/// heartbeat URL and mode only where it names them; and never the dump, the row size or the
/// schema. It fails exactly if its heartbeat URL is no URL.
pub proof fn lemma_post_config<D>(
    current: DatabaseConfig<D>,
    req: HttpDatabaseConfig<D>,
    r: Result<DatabaseConfig<D>, Error>,
)
    requires
        call_ensures(handle_post_config::<D>, (current, req), r),
    ensures
        r is Err <==> is_bad_url(req.heartbeat_url),
        r matches Err(e) ==> e.kind == ErrorKind::UrlParseError && url_parse(
            req.heartbeat_url->0@,
        ) == Err::<Seq<char>, Seq<char>>(e.message@),
        r matches Ok(updated) ==> {
            &&& updated.block_reads == req.block_reads
            &&& updated.block_writes == req.block_writes
            &&& updated.block_reason == req.block_reason
            &&& updated.jwt_key == req.jwt_key
            &&& updated.allow_attach == req.allow_attach
            &&& is_seconds(req.txn_timeout_s, updated.txn_timeout)
            &&& has_room(req.max_db_size, current.max_db_pages, updated.max_db_pages)
            &&& asked_or_kept(
                req.durability_mode,
                current.durability_mode,
                updated.durability_mode,
            )
            &&& req.heartbeat_url is Some ==> is_read_url(req.heartbeat_url, updated.heartbeat_url)
            &&& req.heartbeat_url is None ==> opt_string(updated.heartbeat_url) == opt_string(
                current.heartbeat_url,
            )
            &&& updated.bottomless_db_id == current.bottomless_db_id
            &&& updated.max_row_size == current.max_row_size
            &&& updated.is_shared_schema == current.is_shared_schema
            &&& updated.shared_schema_name == current.shared_schema_name
        },
{
}

/// The same of a post whose heartbeat URL was read already.
pub proof fn lemma_posted_config<D>(
    current: DatabaseConfig<D>,
    req: HttpDatabaseConfig<D>,
    url: Option<String>,
    r: DatabaseConfig<D>,
)
    requires
        call_ensures(posted_config::<D>, (current, req, url), r),
    ensures
        r.block_reads == req.block_reads,
        r.block_writes == req.block_writes,
        url is Some ==> opt_string(r.heartbeat_url) == opt_string(url),
        url is None ==> opt_string(r.heartbeat_url) == opt_string(current.heartbeat_url),
        has_room(req.max_db_size, current.max_db_pages, r.max_db_pages),
        asked_or_kept(req.durability_mode, current.durability_mode, r.durability_mode),
        r.max_row_size == current.max_row_size,
        r.shared_schema_name == current.shared_schema_name,
        r.is_shared_schema == current.is_shared_schema,
        r.bottomless_db_id == current.bottomless_db_id,
{
}

/// Whoever posts what a namespace shows leaves it as it is, up to the fraction of a second of its
/// timeout; and whoever looks again after a post sees what was posted, with the size rounded down
/// to whole pages.
pub proof fn lemma_show_and_post<D: Copy>(
    config: &DatabaseConfig<D>,
    shown: HttpDatabaseConfig<D>,
    kept: DatabaseConfig<D>,
    req: HttpDatabaseConfig<D>,
    updated: DatabaseConfig<D>,
    seen: HttpDatabaseConfig<D>,
)
    requires
        config.max_db_pages * 4096 <= u64::MAX,
        updated.max_db_pages * 4096 <= u64::MAX,
        call_ensures(handle_get_config::<D>, (config,), shown),
        config.heartbeat_url matches Some(url) ==> url_parse(url@) == Ok::<Seq<char>, Seq<char>>(
            url@,
        ),
        call_ensures(handle_post_config::<D>, (*config, shown), Ok(kept)),
        call_ensures(handle_post_config::<D>, (*config, req), Ok(updated)),
        call_ensures(handle_get_config::<D>, (&updated,), seen),
    ensures
        opt_string(kept.heartbeat_url) == opt_string(config.heartbeat_url),
        kept.txn_timeout is Some <==> config.txn_timeout is Some,
        kept.txn_timeout matches Some(span) ==> span.secs == config.txn_timeout->0.secs
            && span.nanos == 0,
        kept == (DatabaseConfig {
            heartbeat_url: kept.heartbeat_url,
            txn_timeout: kept.txn_timeout,
            ..*config
        }),
        shown.max_db_size matches Some(size) && size == config.max_db_pages * 4096,
        seen.block_reads == req.block_reads,
        seen.block_writes == req.block_writes,
        seen.block_reason == req.block_reason,
        seen.jwt_key == req.jwt_key,
        seen.allow_attach == req.allow_attach,
        seen.txn_timeout_s == req.txn_timeout_s,
        req.durability_mode is Some ==> seen.durability_mode == req.durability_mode,
        req.max_db_size matches Some(size) ==> (seen.max_db_size matches Some(s) && s <= size && size
            - s < 4096 && s % 4096 == 0),
{
}

/// A new token key changes the key and nothing else.
pub proof fn lemma_update_jwt_key<D>(
    config: DatabaseConfig<D>,
    jwt_key: &str,
    r: DatabaseConfig<D>,
)
    requires
        call_ensures(update_jwt_key::<D>, (config, jwt_key), r),
    ensures
        opt_string(r.jwt_key) == Some(jwt_key@),
        r == (DatabaseConfig { jwt_key: r.jwt_key, ..config }),
{
}

/// A namespace can be forked exactly if it is no shared schema. The fork has its configuration,
/// and the point in time that the request names, if it names one.
pub proof fn lemma_fork<D, T>(
    from_config: DatabaseConfig<D>,
    req: Option<ForkNamespaceReq<T>>,
    r: Result<(DatabaseConfig<D>, Option<T>), Error>,
)
    requires
        call_ensures(handle_fork_namespace::<D, T>, (from_config, req), r),
    ensures
        r is Err <==> from_config.is_shared_schema,
        r matches Err(e) ==> e@ == (
            ErrorKind::SharedSchemaUsageError,
            "database cannot be forked from a shared schema"@,
        ),
        r matches Ok(fork) ==> fork.0 == from_config && (fork.1 is Some <==> req is Some) && (
        req matches Some(q) ==> fork.1 == Some(q.timestamp)),
{
}

/// Backups survive a deletion only if the request asks for it.
pub proof fn lemma_delete_prunes(payload: Option<DeleteNamespaceReq>, prune_all: bool)
    requires
        call_ensures(handle_delete_namespace, (payload,), prune_all),
    ensures
        payload is None ==> prune_all,
        payload matches Some(req) ==> prune_all != req.keep_backup,
{
}

/// Each of the two kinds of statistics has one name, and no other name is accepted.
pub proof fn lemma_delete_stats(a: &str, b: &str, r: Result<StatsReset, Error>, q: Result<StatsReset, Error>)
    requires
        call_ensures(handle_delete_stats, (a,), r),
        call_ensures(handle_delete_stats, (b,), q),
    ensures
        r == Ok::<StatsReset, Error>(StatsReset::TopQueries) <==> a@ == "top"@,
        r == Ok::<StatsReset, Error>(StatsReset::SlowestQueries) <==> a@ == "slowest"@,
        r is Ok && r == q ==> a@ == b@,
        r matches Err(e) ==> e@ == (ErrorKind::Internal, "Invalid stats type"@),
{
    reveal_strlit("top");
    reveal_strlit("slowest");
    assert("top"@.len() != "slowest"@.len());
}

/// There is one report for each stream, in the order of the streams. An open connection speaks for
/// itself.
pub proof fn lemma_diagnostics(handles: Vec<StreamHandle>, r: Vec<String>, i: int)
    requires
        call_ensures(handle_diagnostics, (handles,), r),
        0 <= i < handles@.len(),
    ensures
        r@.len() == handles@.len(),
        handles@[i] matches StreamHandle::Available(Some(text)) ==> r@[i]@ == text@,
        handles@[i] matches StreamHandle::Available(None) ==> r@[i]@
            == "[BUG] available-but-closed"@,
        handles@[i] is Acquired ==> r@[i]@ == "acquired"@,
        handles@[i] is Expired ==> r@[i]@ == "expired"@,
{
}

} // verus!
