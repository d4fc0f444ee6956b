use libsql_server::error::{Error, ErrorKind};
use libsql_server::namespace::NamespaceName;
use libsql_server::namespace_config::{
    create_after_check, handle_create_namespace, handle_delete_namespace, handle_delete_stats,
    handle_diagnostics, handle_fork_namespace, handle_get_config, handle_get_index,
    handle_post_config, posted_config, requested_config, update_jwt_key, CreateNamespaceReq,
    CreateNamespaceStep, DatabaseConfig, DeleteNamespaceReq, ForkNamespaceReq, HttpDatabaseConfig,
    RestoreOption, Span, StatsReset, StreamHandle, LIBSQL_PAGE_SIZE,
};

#[derive(Clone, Copy, Debug, PartialEq)]
enum Mode {
    Relaxed,
    Strong,
}

fn text(s: &str) -> Option<String> {
    Some(s.to_string())
}

fn config() -> DatabaseConfig<Mode> {
    DatabaseConfig {
        block_reads: true,
        block_writes: false,
        block_reason: text("why"),
        max_db_pages: 10,
        heartbeat_url: text("http://beat/"),
        bottomless_db_id: text("dump"),
        jwt_key: text("jwt"),
        txn_timeout: Some(Span { secs: 7, nanos: 500 }),
        max_row_size: 123,
        is_shared_schema: false,
        shared_schema_name: None,
        allow_attach: true,
        durability_mode: Mode::Strong,
    }
}

fn bare_post() -> HttpDatabaseConfig<Mode> {
    HttpDatabaseConfig {
        block_reads: false,
        block_writes: true,
        block_reason: None,
        max_db_size: None,
        heartbeat_url: None,
        jwt_key: None,
        allow_attach: false,
        txn_timeout_s: None,
        durability_mode: None,
    }
}

fn bare_create() -> CreateNamespaceReq<Mode> {
    CreateNamespaceReq {
        max_db_size: None,
        heartbeat_url: None,
        bottomless_db_id: None,
        jwt_key: None,
        txn_timeout_s: None,
        max_row_size: None,
        shared_schema: false,
        shared_schema_name: None,
        allow_attach: false,
        durability_mode: None,
    }
}

fn schema(name: &str) -> Option<NamespaceName> {
    Some(NamespaceName { name: name.to_string() })
}

fn created(step: CreateNamespaceStep<Mode>) -> DatabaseConfig<Mode> {
    match step {
        CreateNamespaceStep::Create { restore, config } => {
            assert_eq!(restore, RestoreOption::Latest);
            config
        }
        _ => panic!("not created"),
    }
}

fn refused(step: CreateNamespaceStep<Mode>) -> Error {
    match step {
        CreateNamespaceStep::Refuse(e) => e,
        _ => panic!("not refused"),
    }
}

#[test]
fn configuration_is_shown() {
    let shown = handle_get_config(&config());
    assert!(shown.block_reads && !shown.block_writes && shown.allow_attach);
    assert_eq!(shown.block_reason, text("why"));
    assert_eq!(shown.max_db_size, Some(40_960));
    assert_eq!(shown.heartbeat_url, text("http://beat/"));
    assert_eq!(shown.jwt_key, text("jwt"));
    assert_eq!(shown.txn_timeout_s, Some(7));
    assert_eq!(shown.durability_mode, Some(Mode::Strong));
}

#[test]
fn absent_settings_keep_their_values() {
    let updated = handle_post_config(config(), bare_post()).unwrap();
    assert!(!updated.block_reads && updated.block_writes && !updated.allow_attach);
    assert_eq!(updated.block_reason, None);
    assert_eq!(updated.max_db_pages, 10);
    assert_eq!(updated.heartbeat_url, text("http://beat/"));
    assert_eq!(updated.bottomless_db_id, text("dump"));
    assert_eq!(updated.jwt_key, None);
    assert_eq!(updated.txn_timeout, None);
    assert_eq!(updated.max_row_size, 123);
    assert_eq!(updated.durability_mode, Mode::Strong);
}

#[test]
fn posted_settings_are_taken_over() {
    let req = HttpDatabaseConfig {
        max_db_size: Some(3 * LIBSQL_PAGE_SIZE + 5),
        heartbeat_url: text("HTTP://Example.com"),
        jwt_key: text("k"),
        txn_timeout_s: Some(9),
        durability_mode: Some(Mode::Relaxed),
        ..bare_post()
    };
    let updated = handle_post_config(config(), req).unwrap();
    assert_eq!(updated.max_db_pages, 3);
    assert_eq!(updated.heartbeat_url, text("http://example.com/"));
    assert_eq!(updated.jwt_key, text("k"));
    assert_eq!(updated.txn_timeout, Some(Span { secs: 9, nanos: 0 }));
    assert_eq!(updated.durability_mode, Mode::Relaxed);
    assert_eq!(handle_get_config(&updated).max_db_size, Some(3 * LIBSQL_PAGE_SIZE));
}

#[test]
fn bad_heartbeat_url_is_refused() {
    let req = HttpDatabaseConfig { heartbeat_url: text("not a url"), ..bare_post() };
    let e = handle_post_config(config(), req).unwrap_err();
    assert_eq!(e.kind, ErrorKind::UrlParseError);
    assert_eq!(e.message, url::Url::parse("not a url").unwrap_err().to_string());
    let req = CreateNamespaceReq { heartbeat_url: text(""), ..bare_create() };
    let e = refused(handle_create_namespace(req, config(), Mode::Relaxed));
    assert_eq!(e.kind, ErrorKind::UrlParseError);
    assert_eq!(e.message, url::Url::parse("").unwrap_err().to_string());
}

#[test]
fn posting_what_was_shown_changes_nothing() {
    let updated = handle_post_config(config(), handle_get_config(&config())).unwrap();
    let expected = DatabaseConfig { txn_timeout: Some(Span { secs: 7, nanos: 0 }), ..config() };
    assert_eq!(format!("{updated:?}"), format!("{expected:?}"));
}

#[test]
fn parsed_url_is_posted() {
    let updated = posted_config(config(), bare_post(), text("u"));
    assert_eq!(updated.heartbeat_url, text("u"));
    let updated = posted_config(config(), bare_post(), None);
    assert_eq!(updated.heartbeat_url, text("http://beat/"));
    let config = requested_config(bare_create(), config(), Mode::Relaxed, text("u"));
    assert_eq!(config.heartbeat_url, text("u"));
}

#[test]
fn token_key_is_replaced() {
    let updated = update_jwt_key(config(), "new");
    assert_eq!(updated.jwt_key, text("new"));
    let expected = DatabaseConfig { jwt_key: text("new"), ..config() };
    assert_eq!(format!("{updated:?}"), format!("{expected:?}"));
}

#[test]
fn namespace_is_created_over_the_defaults() {
    let config = created(handle_create_namespace(bare_create(), config(), Mode::Relaxed));
    assert!(config.block_reads);
    assert_eq!(config.max_db_pages, 10);
    assert_eq!(config.heartbeat_url, None);
    assert_eq!(config.bottomless_db_id, None);
    assert_eq!(config.jwt_key, text("jwt"));
    assert_eq!(config.txn_timeout, None);
    assert_eq!(config.max_row_size, 123);
    assert!(!config.is_shared_schema && !config.allow_attach);
    assert_eq!(config.durability_mode, Mode::Relaxed);
}

#[test]
fn namespace_is_created_as_requested() {
    let req = CreateNamespaceReq {
        max_db_size: Some(2 * LIBSQL_PAGE_SIZE - 1),
        heartbeat_url: text("http://h"),
        bottomless_db_id: text("b"),
        jwt_key: text("k"),
        txn_timeout_s: Some(3),
        max_row_size: Some(4),
        shared_schema: true,
        shared_schema_name: None,
        allow_attach: true,
        durability_mode: Some(Mode::Strong),
    };
    let config = created(handle_create_namespace(req, config(), Mode::Relaxed));
    assert_eq!(config.max_db_pages, 1);
    assert_eq!(config.heartbeat_url, text("http://h/"));
    assert_eq!(config.bottomless_db_id, text("b"));
    assert_eq!(config.jwt_key, text("k"));
    assert_eq!(config.txn_timeout, Some(Span { secs: 3, nanos: 0 }));
    assert_eq!(config.max_row_size, 4);
    assert!(config.is_shared_schema && config.allow_attach);
    assert_eq!(config.durability_mode, Mode::Strong);
}

#[test]
fn schema_must_exist() {
    let req = CreateNamespaceReq { shared_schema_name: schema("s"), ..bare_create() };
    let (name, req) = match handle_create_namespace(req, config(), Mode::Relaxed) {
        CreateNamespaceStep::CheckSchema { schema, req } => (schema, req),
        _ => panic!("not checked"),
    };
    assert_eq!(name.as_str(), "s");
    let config = created(create_after_check(&name, true, req, config(), Mode::Relaxed));
    assert_eq!(config.shared_schema_name.unwrap().as_str(), "s");
    let req = CreateNamespaceReq { shared_schema_name: schema("s"), ..bare_create() };
    let e = refused(create_after_check(&name, false, req, self::config(), Mode::Relaxed));
    assert_eq!((e.kind, e.message.as_str()), (ErrorKind::NamespaceDoesntExist, "s"));
}

#[test]
fn schemas_do_not_chain() {
    let req = CreateNamespaceReq {
        shared_schema: true,
        shared_schema_name: schema("s"),
        ..bare_create()
    };
    let e = refused(handle_create_namespace(req, config(), Mode::Relaxed));
    assert_eq!(e.kind, ErrorKind::SharedSchemaCreationError);
    assert_eq!(e.message, "shared schema database cannot reference another shared schema");
    let req = CreateNamespaceReq {
        shared_schema: true,
        shared_schema_name: schema("s"),
        bottomless_db_id: text("b"),
        ..bare_create()
    };
    let e = refused(handle_create_namespace(req, config(), Mode::Relaxed));
    assert_eq!(e.kind, ErrorKind::SharedSchemaUsageError);
    assert_eq!(e.message, "database using shared schema database cannot be created from a dump");
}

#[test]
fn fork_copies_the_configuration() {
    let req = Some(ForkNamespaceReq { timestamp: 17 });
    let (fork, timestamp) = handle_fork_namespace(config(), req).unwrap();
    assert_eq!(format!("{fork:?}"), format!("{:?}", config()));
    assert_eq!(timestamp, Some(17));
    let none: Option<ForkNamespaceReq<u8>> = None;
    assert_eq!(handle_fork_namespace(config(), none).unwrap().1, None);
    let shared = DatabaseConfig { is_shared_schema: true, ..config() };
    let req = Some(ForkNamespaceReq { timestamp: 17 });
    let e = handle_fork_namespace(shared, req).unwrap_err();
    assert_eq!(e.kind, ErrorKind::SharedSchemaUsageError);
    assert_eq!(e.message, "database cannot be forked from a shared schema");
}

#[test]
fn backups_are_pruned_unless_kept() {
    assert!(handle_delete_namespace(None));
    assert!(handle_delete_namespace(Some(DeleteNamespaceReq::default())));
    assert!(!handle_delete_namespace(Some(DeleteNamespaceReq { keep_backup: true })));
}

#[test]
fn stats_types_are_read() {
    assert_eq!(handle_delete_stats("top").unwrap(), StatsReset::TopQueries);
    assert_eq!(handle_delete_stats("slowest").unwrap(), StatsReset::SlowestQueries);
    let e = handle_delete_stats("Top").unwrap_err();
    assert_eq!((e.kind, e.message.as_str()), (ErrorKind::Internal, "Invalid stats type"));
}

#[test]
fn streams_are_diagnosed() {
    let handles = vec![
        StreamHandle::Available(text("open")),
        StreamHandle::Available(None),
        StreamHandle::Acquired,
        StreamHandle::Expired,
    ];
    assert_eq!(
        handle_diagnostics(handles),
        ["open", "[BUG] available-but-closed", "acquired", "expired"]
    );
    assert!(handle_diagnostics(Vec::new()).is_empty());
    assert_eq!(handle_get_index(), "Welcome to the sqld admin API");
}
