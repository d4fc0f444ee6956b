use base64::engine::general_purpose::URL_SAFE_NO_PAD;
use base64::Engine;
use hyper::header::{HeaderMap, HeaderValue};
use libsql_server::databases::{
    authorized, create_after_insert, create_after_lookup, create_after_namespace, create_database,
    delete_after_lookup, delete_after_namespace, delete_after_record, delete_database,
    get_after_lookup, get_after_stats, get_database, list_after_records, list_after_stats,
    list_databases, make_record, rekey_record, rename_after_copy, rename_after_delete, rename_after_namespace,
    rename_after_new, rename_after_old, rename_after_replace, rename_database,
    rotate_after_lookup, rotate_after_replace, rotate_after_update, rotate_token, verify_key,
    CreateDatabaseReq, CreateStep, DeleteStep, GetStep, Keys, ListStep, RenameDatabaseReq,
    RenameStep, RotateStep, VerifyKeyReq, TOKEN_LIFETIME_SECS,
};
use libsql_server::http::ErrorReply;
use libsql_server::namespace_config::RestoreOption;
use libsql_server::platform::MinitursoConfig;
use libsql_server::records::DatabaseRecord;
use libsql_server::token::{sign_token_at, SigningKey};

fn config() -> MinitursoConfig {
    MinitursoConfig {
        admin_key: "key".to_string(),
        version: "1".to_string(),
        data_dir: "/data".to_string(),
        sqld_data_dir: "/sqld".to_string(),
        public_dir: None,
        scheme: "https".to_string(),
        host: "db.example.com".to_string(),
        port: 443,
        connection_url: None,
        admin_listen_addr: "127.0.0.1:9090".to_string(),
    }
}

fn bearer(key: &str) -> HeaderMap<HeaderValue> {
    let mut map = HeaderMap::new();
    map.insert("authorization", HeaderValue::from_str(&format!("Bearer {key}")).unwrap());
    map
}

fn record(id: &str) -> DatabaseRecord {
    DatabaseRecord {
        id: id.to_string(),
        namespace: id.to_string(),
        jwt_public_key: "old public".to_string(),
        jwt_private_key: "old private".to_string(),
        created_at: "2024-01-02T03:04:05+00:00".to_string(),
        last_accessed_at: Some("2024-02-02T03:04:05+00:00".to_string()),
    }
}

fn text(s: &str) -> String {
    s.to_string()
}

fn create_req(id: Option<&str>) -> CreateDatabaseReq {
    CreateDatabaseReq { id: id.map(text) }
}

fn rename_req(id: Option<&str>) -> RenameDatabaseReq {
    RenameDatabaseReq { id: id.map(text) }
}

fn check(e: ErrorReply, status: u16, message: &str) {
    assert_eq!((e.status.code(), e.message.as_str()), (status, message));
}

fn claims_of(token: &str) -> serde_json::Value {
    let claims = URL_SAFE_NO_PAD.decode(token.split('.').nth(1).unwrap()).unwrap();
    serde_json::from_slice(&claims).unwrap()
}

fn refused_create(step: CreateStep) -> ErrorReply {
    match step {
        CreateStep::Refuse(e) => e,
        _ => panic!("not refused"),
    }
}

fn refused_rename(step: RenameStep) -> ErrorReply {
    match step {
        RenameStep::Refuse(e) => e,
        _ => panic!("not refused"),
    }
}

fn refused_rotate(step: RotateStep) -> ErrorReply {
    match step {
        RotateStep::Refuse(e) => e,
        _ => panic!("not refused"),
    }
}

fn refused_delete(step: DeleteStep) -> ErrorReply {
    match step {
        DeleteStep::Refuse(e) => e,
        _ => panic!("not refused"),
    }
}

#[test]
fn platform_lets_in_who_has_the_key() {
    let config = config();
    assert_eq!(authorized(Some(&config), &bearer("key")).unwrap().admin_key, "key");
    check(authorized(None, &bearer("key")).unwrap_err(), 503, "miniturso not configured");
    check(authorized(Some(&config), &bearer("no")).unwrap_err(), 401, "Unauthorized");
    check(authorized(Some(&config), &HeaderMap::new()).unwrap_err(), 401, "Unauthorized");
}

#[test]
fn refused_requests_trigger_nothing() {
    let config = config();
    for (platform, headers, status, message) in [
        (None, bearer("key"), 503, "miniturso not configured"),
        (Some(&config), bearer("wrong"), 401, "Unauthorized"),
    ] {
        check(
            refused_create(create_database(platform, &headers, create_req(Some("a")))),
            status,
            message,
        );
        check(
            refused_rename(rename_database(platform, &headers, text("a"), rename_req(Some("b")))),
            status,
            message,
        );
        check(refused_rotate(rotate_token(platform, &headers, text("a"))), status, message);
        check(refused_delete(delete_database(platform, &headers, text("a"))), status, message);
        match list_databases(platform, &headers) {
            ListStep::Refuse(e) => check(e, status, message),
            _ => panic!("not refused"),
        }
        match get_database(platform, &headers, text("a")) {
            GetStep::Refuse(e) => check(e, status, message),
            _ => panic!("not refused"),
        }
    }
}

#[test]
fn key_is_verified() {
    let config = config();
    let req = |key: Option<&str>| VerifyKeyReq { key: key.map(text) };
    assert!(verify_key(Some(&config), &req(Some("key"))));
    assert!(!verify_key(Some(&config), &req(Some("keys"))));
    assert!(!verify_key(Some(&config), &req(None)));
    assert!(!verify_key(None, &req(Some("key"))));
}

#[test]
fn ids_are_checked_on_create() {
    let config = config();
    let start = |id: Option<&str>| create_database(Some(&config), &bearer("key"), create_req(id));
    check(refused_create(start(None)), 400, "id is required");
    let long = "a".repeat(37);
    for bad in ["", "A", "a-b", "a b", "é", long.as_str()] {
        check(refused_create(start(Some(bad))), 400, "id must be 1-36 characters, only [0-9a-z]");
    }
    let longest = "z".repeat(36);
    for good in ["0", "az09", longest.as_str()] {
        match start(Some(good)) {
            CreateStep::Lookup { id } => assert_eq!(id, good),
            _ => panic!("refused"),
        }
    }
}

#[test]
fn database_is_created() {
    let config = config();
    let id = match create_database(Some(&config), &bearer("key"), create_req(Some("db1"))) {
        CreateStep::Lookup { id } => id,
        _ => panic!("refused"),
    };
    let (namespace, id, keys) = match create_after_lookup(id, false) {
        CreateStep::CreateNamespace { namespace, restore, id, keys } => {
            assert_eq!(restore, RestoreOption::Latest);
            (namespace, id, keys)
        }
        _ => panic!("refused"),
    };
    assert_eq!(namespace.name, "db1");
    assert_eq!(namespace.jwt_key, keys.signing_key.public_text());
    let secret_text = keys.signing_key.secret_text();
    let public_text = keys.public_key.clone();
    let before = chrono::Utc::now();
    let (record, token) = match create_after_namespace(id, keys, Ok(())) {
        CreateStep::Insert { record, token } => (record, token),
        _ => panic!("refused"),
    };
    assert_eq!(record.id, "db1");
    assert_eq!(record.namespace, "db1");
    assert_eq!(record.jwt_public_key, public_text);
    assert_eq!(record.jwt_private_key, secret_text);
    assert_eq!(record.last_accessed_at, None);
    let created = chrono::DateTime::parse_from_rfc3339(&record.created_at).unwrap();
    assert!(created >= before && created <= chrono::Utc::now());
    assert!(record.created_at.len() >= 25 && record.created_at.ends_with("+00:00"));
    let claims = claims_of(&token);
    assert_eq!(claims["p"]["rw"]["ns"][0], "db1");
    assert!(claims["exp"].as_i64().unwrap() >= before.timestamp() + TOKEN_LIFETIME_SECS);
    let created_at = record.created_at.clone();
    match create_after_insert(&config, record, token.clone(), Ok(())) {
        CreateStep::Reply(c) => {
            assert_eq!(c.id, "db1");
            assert_eq!(c.namespace, "db1");
            assert_eq!(c.token, token);
            assert_eq!(c.host, "db.example.com");
            assert_eq!(c.connection_url, "https://db.example.com");
            assert_eq!(c.created_at, Some(created_at));
        }
        _ => panic!("refused"),
    }
}

#[test]
fn creation_fails_with_its_cause() {
    check(
        refused_create(create_after_lookup(text("db1"), true)),
        409,
        "A database with this id already exists",
    );
    let keys = Keys { signing_key: SigningKey { secret: [1; 32] }, public_key: text("p") };
    check(
        refused_create(create_after_namespace(text("db1"), keys, Err(text("disk full")))),
        500,
        "failed to create namespace: disk full",
    );
    check(
        refused_create(create_after_insert(&config(), record("a"), text("t"), Err(text("locked")))),
        500,
        "locked",
    );
}

#[test]
fn record_is_made_from_keys() {
    let key = SigningKey { secret: [9; 32] };
    let public_key = key.public_text();
    let private_key = key.secret_text();
    let expected = sign_token_at("db9", &SigningKey { secret: [9; 32] }, 1000, TOKEN_LIFETIME_SECS);
    let keys = Keys { signing_key: key, public_key: public_key.clone() };
    let (record, token) = make_record("db9", keys, text("now"), 1000);
    assert_eq!(record.id, "db9");
    assert_eq!(record.namespace, "db9");
    assert_eq!(record.jwt_public_key, public_key);
    assert_eq!(record.jwt_private_key, private_key);
    assert_eq!(record.created_at, "now");
    assert_eq!(record.last_accessed_at, None);
    assert_eq!(token, expected);
    assert_eq!(claims_of(&token)["exp"], 1000 + 90 * 24 * 3600);
}

#[test]
fn record_is_given_new_keys() {
    let keys = Keys { signing_key: SigningKey { secret: [4; 32] }, public_key: text("public") };
    let (rekeyed, token) = rekey_record(record("db4"), keys, 2000);
    assert_eq!(rekeyed.jwt_public_key, "public");
    assert_eq!(rekeyed.jwt_private_key, SigningKey { secret: [4; 32] }.secret_text());
    assert_eq!(rekeyed.created_at, record("db4").created_at);
    assert_eq!(rekeyed.last_accessed_at, record("db4").last_accessed_at);
    let key = SigningKey { secret: [4; 32] };
    assert_eq!(token, sign_token_at("db4", &key, 2000, TOKEN_LIFETIME_SECS));
}

#[test]
fn ids_are_checked_on_rename() {
    let config = config();
    let start =
        |id: Option<&str>| rename_database(Some(&config), &bearer("key"), text("old"), rename_req(id));
    check(refused_rename(start(None)), 400, "id is required");
    check(refused_rename(start(Some("No"))), 400, "id must be 1-36 characters, only [0-9a-z]");
    check(refused_rename(start(Some("old"))), 400, "new id must be different from current id");
    match start(Some("new")) {
        RenameStep::LookupOld { old_id, new_id } => {
            assert_eq!((old_id.as_str(), new_id.as_str()), ("old", "new"));
        }
        _ => panic!("refused"),
    }
}

#[test]
fn database_is_renamed() {
    let config = config();
    let mut old = record("old");
    old.namespace = text("oldns");
    let (old_id, new_id, old_record) = match rename_after_old(text("old"), text("new"), Some(old)) {
        RenameStep::LookupNew { old_id, new_id, old_record } => (old_id, new_id, old_record),
        _ => panic!("refused"),
    };
    let (namespace, state) = match rename_after_new(old_id, new_id, old_record, false) {
        RenameStep::CreateNamespace { namespace, restore, state } => {
            assert_eq!(restore, RestoreOption::Latest);
            (namespace, state)
        }
        _ => panic!("refused"),
    };
    assert_eq!(namespace.name, "new");
    assert_eq!(namespace.jwt_key, state.keys.signing_key.public_text());
    let (from, to, state) = match rename_after_namespace(state, Ok(())) {
        RenameStep::CopyDatabase { from, to, state } => (from, to, state),
        _ => panic!("refused"),
    };
    assert_eq!(from, ["dbs", "oldns", "data"]);
    assert_eq!(to, ["dbs", "new", "data"]);
    let (name, prune_all, state) = match rename_after_copy(state, Ok(())) {
        RenameStep::DeleteNamespace { name, prune_all, state } => (name, prune_all, state),
        _ => panic!("refused"),
    };
    assert_eq!((name.as_str(), prune_all), ("oldns", true));
    let secret_text = state.keys.signing_key.secret_text();
    let (old_id, new_record, token) = match rename_after_delete(state, Ok(())) {
        RenameStep::Replace { old_id, record, token } => (old_id, record, token),
        _ => panic!("refused"),
    };
    assert_eq!(old_id, "old");
    assert_eq!(new_record.id, "new");
    assert_eq!(new_record.namespace, "new");
    assert_eq!(new_record.jwt_public_key, namespace.jwt_key);
    assert_eq!(new_record.jwt_private_key, secret_text);
    assert_eq!(new_record.created_at, record("old").created_at);
    assert_eq!(new_record.last_accessed_at, None);
    assert_eq!(claims_of(&token)["p"]["ro"]["ns"][0], "new");
    match rename_after_replace(&config, new_record, token.clone(), Ok(())) {
        RenameStep::Reply(c) => {
            assert_eq!((c.id.as_str(), c.token), ("new", token));
            assert_eq!(c.created_at, Some(record("old").created_at));
        }
        _ => panic!("refused"),
    }
}

#[test]
fn rename_fails_with_its_cause() {
    check(
        refused_rename(rename_after_old(text("a"), text("b"), None)),
        404,
        "Database not found",
    );
    check(
        refused_rename(rename_after_new(text("a"), text("b"), record("a"), true)),
        409,
        "A database with this id already exists",
    );
    let state = || match rename_after_new(text("a"), text("b"), record("a"), false) {
        RenameStep::CreateNamespace { state, .. } => state,
        _ => panic!("refused"),
    };
    check(
        refused_rename(rename_after_namespace(state(), Err(text("x")))),
        500,
        "failed to create namespace: x",
    );
    check(refused_rename(rename_after_copy(state(), Err(text("disk full")))), 500, "disk full");
    check(
        refused_rename(rename_after_delete(state(), Err(text("x")))),
        500,
        "failed to delete old namespace: x",
    );
    check(
        refused_rename(rename_after_replace(&config(), record("b"), text("t"), Err(text("x")))),
        500,
        "x",
    );
}

#[test]
fn token_is_rotated() {
    let config = config();
    let id = match rotate_token(Some(&config), &bearer("key"), text("db1")) {
        RotateStep::Lookup { id } => id,
        _ => panic!("refused"),
    };
    let (namespace, id, old, keys) = match rotate_after_lookup(id, Some(record("db1"))) {
        RotateStep::UpdateKey { namespace, id, record, keys } => (namespace, id, record, keys),
        _ => panic!("refused"),
    };
    assert_eq!(namespace.name, "db1");
    assert_eq!(namespace.jwt_key, keys.signing_key.public_text());
    let secret_text = keys.signing_key.secret_text();
    let (id, new_record, token) = match rotate_after_update(id, old, keys, Ok(())) {
        RotateStep::Replace { id, record, token } => (id, record, token),
        _ => panic!("refused"),
    };
    assert_eq!(id, "db1");
    assert_eq!(new_record.id, "db1");
    assert_eq!(new_record.created_at, record("db1").created_at);
    assert_eq!(new_record.last_accessed_at, record("db1").last_accessed_at);
    assert_eq!(new_record.jwt_public_key, namespace.jwt_key);
    assert_eq!(new_record.jwt_private_key, secret_text);
    assert_eq!(claims_of(&token)["p"]["rw"]["ns"][0], "db1");
    match rotate_after_replace(&config, new_record, token.clone(), Ok(())) {
        RotateStep::Reply(c) => {
            assert_eq!((c.id.as_str(), c.token), ("db1", token));
            assert_eq!(c.created_at, None);
        }
        _ => panic!("refused"),
    }
}

#[test]
fn rotation_fails_with_its_cause() {
    check(refused_rotate(rotate_after_lookup(text("a"), None)), 404, "Database not found");
    let keys = Keys { signing_key: SigningKey { secret: [1; 32] }, public_key: text("p") };
    check(
        refused_rotate(rotate_after_update(text("a"), record("a"), keys, Err(text("x")))),
        500,
        "failed to update namespace config: x",
    );
    check(
        refused_rotate(rotate_after_replace(&config(), record("a"), text("t"), Err(text("x")))),
        500,
        "x",
    );
}

#[test]
fn database_is_deleted() {
    let config = config();
    let id = match delete_database(Some(&config), &bearer("key"), text("db1")) {
        DeleteStep::Lookup { id } => id,
        _ => panic!("refused"),
    };
    let mut stored = record("db1");
    stored.namespace = text("ns1");
    let (name, id, stored) = match delete_after_lookup(id, Some(stored)) {
        DeleteStep::DeleteNamespace { name, prune_all, id, record } => {
            assert!(prune_all);
            (name, id, record)
        }
        _ => panic!("refused"),
    };
    assert_eq!((name.as_str(), id.as_str()), ("ns1", "db1"));
    let (id, stored) = match delete_after_namespace(id, stored, Ok(())) {
        DeleteStep::DeleteRecord { id, record } => (id, record),
        _ => panic!("refused"),
    };
    assert_eq!(id, "db1");
    match delete_after_record(stored, Ok(())) {
        DeleteStep::Reply { id, namespace } => {
            assert_eq!((id.as_str(), namespace.as_str()), ("db1", "ns1"));
        }
        _ => panic!("refused"),
    }
    check(refused_delete(delete_after_lookup(text("a"), None)), 404, "Database not found");
    check(
        refused_delete(delete_after_namespace(text("a"), record("a"), Err(text("x")))),
        500,
        "failed to delete namespace: x",
    );
    check(refused_delete(delete_after_record(record("a"), Err(text("x")))), 500, "x");
}

#[test]
fn databases_are_listed() {
    let config = config();
    assert!(matches!(list_databases(Some(&config), &bearer("key")), ListStep::List));
    match list_after_records(Err(text("locked"))) {
        ListStep::Refuse(e) => check(e, 500, "locked"),
        _ => panic!("not refused"),
    }
    let records = match list_after_records(Ok(vec![record("b"), record("a")])) {
        ListStep::ReadStats { records } => records,
        _ => panic!("refused"),
    };
    let stats = text("{\"storage_bytes_used\":2048,\"rows_written\":3,\"rows_read\":4,\"query_count\":5}");
    let texts = vec![None, Some(stats)];
    let pairs: Vec<(DatabaseRecord, Option<String>)> = records.into_iter().zip(texts).collect();
    let views = list_after_stats(&config, &pairs);
    assert_eq!(views.len(), 2);
    assert_eq!(views[0].id, "b");
    assert_eq!(views[0].stats.storage_bytes, 0);
    assert_eq!(views[0].storage_bytes_formatted, None);
    assert_eq!(views[1].id, "a");
    assert_eq!(views[1].stats.storage_bytes, 2048);
    assert_eq!(views[1].stats.rows_written, 3);
    assert_eq!(views[1].stats.rows_read, 4);
    assert_eq!(views[1].stats.query_count, 5);
    assert_eq!(views[1].storage_bytes_formatted.as_deref(), Some("2.0 KB"));
    assert_eq!(views[1].host, "db.example.com");
    assert_eq!(views[1].connection_url, "https://db.example.com");
}

#[test]
fn database_is_reported() {
    let config = config();
    match get_database(Some(&config), &bearer("key"), text("db1")) {
        GetStep::Lookup { id } => assert_eq!(id, "db1"),
        _ => panic!("refused"),
    }
    match get_after_lookup(Ok(None)) {
        GetStep::Refuse(e) => check(e, 404, "Database not found"),
        _ => panic!("not refused"),
    }
    match get_after_lookup(Err(text("locked"))) {
        GetStep::Refuse(e) => check(e, 500, "locked"),
        _ => panic!("not refused"),
    }
    let found = match get_after_lookup(Ok(Some(record("db1")))) {
        GetStep::ReadStats { record } => record,
        _ => panic!("refused"),
    };
    let view = get_after_stats(&config, &found, &Some(text("not json")));
    assert_eq!(view.id, "db1");
    assert_eq!(view.created_at, record("db1").created_at);
    assert_eq!(view.last_accessed_at, record("db1").last_accessed_at);
    assert_eq!(view.storage_bytes_formatted, None);
    let view = get_after_stats(&config, &found, &Some(text("{}")));
    assert_eq!(view.storage_bytes_formatted.as_deref(), Some("0 B"));
}
