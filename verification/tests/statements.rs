use std::cell::RefCell;

use hyper::header::{HeaderMap, HeaderValue};
use libsql_server::admin_query::{
    admin_query, missing_namespace, query_connect, query_created, query_finished,
    refused_statements, AdminQueryReq, AdminQueryStep, QueryStep,
};
use libsql_server::conn_cache::{ConnCache, Connection, Wake};
use libsql_server::error::ErrorKind;
use libsql_server::namespace::NamespaceName;
use libsql_server::platform::MinitursoConfig;
use libsql_server::queries::{
    check_batch, parse_queries, query_statement, Query, QueryObject, TxnStatus,
};
use libsql_server::stmt::{parse_uncached, Parsed, Statement, StmtError, StmtKind};
use libsql_server::stmt_cache::{weigh, StmtCache, PARSED_STMT_CACHE_BYTES};

const MANY: &str = "found more than one command in a single statement string. It is allowed to issue only one command per string.";

fn kind(text: &str) -> StmtKind {
    if text.starts_with("SAVEPOINT") {
        StmtKind::Savepoint
    } else if text.starts_with("RELEASE") {
        StmtKind::Release
    } else {
        StmtKind::Other
    }
}

// Statements are separated by semicolons; `?` is an error.
fn parse(sql: &str) -> Parsed {
    let mut texts = sql.split(';').map(|t| t.trim()).filter(|t| !t.is_empty());
    let first = texts.next().map(|t| {
        if t.contains('?') {
            Err(format!("near {t}"))
        } else {
            Ok(Statement { stmt: t.to_string(), kind: kind(t) })
        }
    });
    Parsed { first, more: texts.next().is_some() }
}

fn predict(batch: &Vec<Query<u32>>) -> TxnStatus {
    let mut state = TxnStatus::Init;
    for query in batch {
        state = match (state, query.stmt.stmt.as_str()) {
            (TxnStatus::Init, "BEGIN") => TxnStatus::Txn,
            (TxnStatus::Txn, "COMMIT") => TxnStatus::Init,
            (_, "BEGIN") | (_, "COMMIT") => TxnStatus::Invalid,
            (state, _) => state,
        };
    }
    state
}

fn queries(texts: &[&str]) -> Vec<QueryObject<u32>> {
    texts
        .iter()
        .enumerate()
        .map(|(i, q)| QueryObject { q: q.to_string(), params: i as u32 })
        .collect()
}

#[test]
fn batch_keeps_texts_and_parameters() {
    let batch = parse_queries(queries(&["SELECT 1", " SELECT 2; ", ""]), parse, predict).unwrap();
    assert_eq!(batch.len(), 3);
    let texts: Vec<&str> = batch.iter().map(|q| q.stmt.stmt.as_str()).collect();
    assert_eq!(texts, ["SELECT 1", "SELECT 2", ""]);
    let params: Vec<u32> = batch.iter().map(|q| q.params).collect();
    assert_eq!(params, [0, 1, 2]);
    assert!(batch.iter().all(|q| q.want_rows));
    assert_eq!(batch[2].stmt.kind, StmtKind::Other);
    assert!(parse_queries(Vec::new(), parse, predict).unwrap().is_empty());
}

#[test]
fn first_bad_text_is_reported() {
    let e = parse_queries(queries(&["SELECT 1", "?", "a; b"]), parse, predict).unwrap_err();
    assert_eq!((e.kind, e.message.as_str()), (ErrorKind::Syntax, "near ?"));
    let e = parse_queries(queries(&["a; b", "?"]), parse, predict).unwrap_err();
    assert_eq!((e.kind, e.message.as_str()), (ErrorKind::FailedToParse, MANY));
    let e = parse_queries(queries(&["?; b"]), parse, predict).unwrap_err();
    assert_eq!(e.kind, ErrorKind::Syntax);
    // The texts behind the first bad one are not parsed.
    let seen = RefCell::new(Vec::new());
    let spy = |sql: &str| {
        seen.borrow_mut().push(sql.to_string());
        parse(sql)
    };
    assert!(parse_queries(queries(&["a", "?", "b"]), spy, predict).is_err());
    assert_eq!(*seen.borrow(), ["a", "?"]);
}

#[test]
fn savepoints_and_open_transactions_are_refused() {
    for text in ["SAVEPOINT a", "RELEASE a"] {
        let e = parse_queries(queries(&["SELECT 1", text]), parse, predict).unwrap_err();
        assert_eq!(e.kind, ErrorKind::QueryError);
        assert_eq!(e.message, "savepoints are not supported in HTTP API, use hrana protocol instead");
    }
    let e = parse_queries(queries(&["BEGIN", "SELECT 1"]), parse, predict).unwrap_err();
    assert_eq!(e.kind, ErrorKind::QueryError);
    assert_eq!(e.message, "interactive transaction not allowed in HTTP queries");
    assert!(parse_queries(queries(&["BEGIN", "COMMIT"]), parse, predict).is_ok());
    assert!(parse_queries(queries(&["COMMIT"]), parse, predict).is_ok());
    let e = parse_queries(queries(&["BEGIN", "SAVEPOINT a"]), parse, predict).unwrap_err();
    assert!(e.message.starts_with("savepoints"));
}

#[test]
fn single_query_is_checked() {
    assert_eq!(query_statement(&parse("SELECT 1")).unwrap().stmt, "SELECT 1");
    assert_eq!(query_statement(&parse("")).unwrap().stmt, "");
    assert_eq!(query_statement(&parse("?")).unwrap_err().kind, ErrorKind::Syntax);
    let odd = Parsed { first: None, more: true };
    assert_eq!(query_statement(&odd).unwrap_err().kind, ErrorKind::FailedToParse);
    let batch: Vec<Query<u32>> = Vec::new();
    assert!(check_batch(batch, TxnStatus::Invalid).is_ok());
}

#[test]
fn single_statement_is_required() {
    assert_eq!(parse_uncached(parse("SELECT 1")).unwrap().stmt, "SELECT 1");
    assert!(matches!(parse_uncached(parse("")), Err(StmtError::SqlNoStmt)));
    assert!(matches!(parse_uncached(parse("a; b")), Err(StmtError::SqlManyStmts)));
    match parse_uncached(parse("?")) {
        Err(StmtError::SqlParse { source }) => assert_eq!(source, "near ?"),
        _ => panic!("parsed"),
    }
    let empty = Statement::default();
    assert_eq!((empty.stmt.as_str(), empty.kind), ("", StmtKind::Other));
}

#[test]
fn parsed_statements_are_cached() {
    let calls = RefCell::new(0);
    let mut cache = StmtCache::new(|sql: &str| {
        *calls.borrow_mut() += 1;
        parse(sql)
    });
    for _ in 0..3 {
        assert_eq!(cache.parse_cached("SELECT 1").unwrap().stmt, "SELECT 1");
    }
    assert_eq!(*calls.borrow(), 1);
    assert_eq!(cache.parse_cached("SELECT 2").unwrap().stmt, "SELECT 2");
    assert_eq!(*calls.borrow(), 2);
    assert_eq!(cache.parse_cached("SAVEPOINT a").unwrap().kind, StmtKind::Savepoint);
    assert_eq!(cache.parse_cached("SAVEPOINT a").unwrap().kind, StmtKind::Savepoint);
    assert_eq!(*calls.borrow(), 3);
}

#[test]
fn found_statements_are_not_parsed() {
    let calls = RefCell::new(0);
    let mut cache = StmtCache::new(|sql: &str| {
        *calls.borrow_mut() += 1;
        parse(sql)
    });
    let stmt = cache.parse_found("SELECT 1", None).unwrap();
    assert_eq!((stmt.stmt.as_str(), *calls.borrow()), ("SELECT 1", 1));
    let found = cache.parse_found("SELECT 1", Some(stmt)).unwrap();
    assert_eq!((found.stmt.as_str(), *calls.borrow()), ("SELECT 1", 1));
    assert_eq!(cache.parse_cached("SELECT 1").unwrap().stmt, "SELECT 1");
    assert_eq!(*calls.borrow(), 1);
    assert!(matches!(cache.parse_found("a; b", None), Err(StmtError::SqlManyStmts)));
    assert_eq!(*calls.borrow(), 2);
}

#[test]
fn errors_are_not_cached() {
    let calls = RefCell::new(0);
    let mut cache = StmtCache::new(|sql: &str| {
        *calls.borrow_mut() += 1;
        parse(sql)
    });
    assert!(cache.parse_cached("a; b").is_err());
    assert!(cache.parse_cached("a; b").is_err());
    assert!(matches!(cache.parse_cached(" "), Err(StmtError::SqlNoStmt)));
    assert_eq!(*calls.borrow(), 3);
}

#[test]
fn weight_counts_the_bytes_of_both_texts() {
    let stmt = Statement { stmt: "é1".to_string(), kind: StmtKind::Other };
    assert_eq!(weigh(&"abcd".to_string(), &stmt), 7);
    assert_eq!(weigh(&String::new(), &Statement::default()), 0);
    assert_eq!(PARSED_STMT_CACHE_BYTES, 67_108_864);
}

// Admin queries.

fn config() -> MinitursoConfig {
    MinitursoConfig {
        admin_key: "key".to_string(),
        version: String::new(),
        data_dir: String::new(),
        sqld_data_dir: String::new(),
        public_dir: None,
        scheme: "http".to_string(),
        host: "h".to_string(),
        port: 80,
        connection_url: None,
        admin_listen_addr: String::new(),
    }
}

fn read_name(text: &str) -> Option<NamespaceName> {
    if text.is_empty() {
        None
    } else {
        Some(NamespaceName { name: text.to_string() })
    }
}

fn run(key: &str, body: AdminQueryReq<u32>) -> AdminQueryStep<u32> {
    let mut headers = HeaderMap::new();
    headers.insert("authorization", HeaderValue::from_str(&format!("Bearer {key}")).unwrap());
    admin_query(Some(&config()), &headers, body, 99, read_name, parse, predict)
}

fn body(ns: &str, statements: Option<&[&str]>, sql: Option<&str>) -> AdminQueryReq<u32> {
    AdminQueryReq {
        namespace: ns.to_string(),
        statements: statements.map(queries),
        sql: sql.map(|s| s.to_string()),
    }
}

#[test]
fn admin_query_is_let_in_by_the_key() {
    match run("no", body("ns", None, Some("SELECT 1"))) {
        AdminQueryStep::Refuse(e) => assert_eq!(e.status.code(), 401),
        _ => panic!("not refused"),
    }
    let headers = HeaderMap::new();
    match admin_query(None, &headers, body("", None, None), 99, read_name, parse, predict) {
        AdminQueryStep::Refuse(e) => assert_eq!(e.status.code(), 503),
        _ => panic!("not refused"),
    }
}

#[test]
fn admin_query_needs_a_namespace_and_statements() {
    match run("key", body("", None, None)) {
        AdminQueryStep::Refuse(e) => {
            assert_eq!((e.status.code(), e.message.as_str()), (400, "invalid namespace"));
        }
        _ => panic!("not refused"),
    }
    match run("key", body("ns", None, None)) {
        AdminQueryStep::Refuse(e) => {
            assert_eq!(e.status.code(), 400);
            assert_eq!(e.message, "provide either 'sql' or 'statements' array");
        }
        _ => panic!("not refused"),
    }
    match run("key", body("ns", None, Some("a; b"))) {
        AdminQueryStep::Invalid(e) => assert_eq!(e.kind, ErrorKind::FailedToParse),
        _ => panic!("not refused"),
    }
}

#[test]
fn admin_query_runs_a_batch() {
    match run("key", body("ns", None, Some("SELECT 1"))) {
        AdminQueryStep::Run { namespace, batch } => {
            assert_eq!(namespace.as_str(), "ns");
            assert_eq!(batch.len(), 1);
            assert_eq!((batch[0].stmt.stmt.as_str(), batch[0].params), ("SELECT 1", 99));
        }
        _ => panic!("refused"),
    }
    match run("key", body("ns", Some(&["SELECT 2", "SELECT 3"]), Some("SELECT 1"))) {
        AdminQueryStep::Run { batch, .. } => {
            assert_eq!(batch.len(), 2);
            assert_eq!((batch[1].stmt.stmt.as_str(), batch[1].params), ("SELECT 3", 1));
        }
        _ => panic!("refused"),
    }
}

fn batch() -> Vec<Query<u32>> {
    parse_queries(queries(&["SELECT 1"]), parse, predict).unwrap()
}

fn conn(handle: u8) -> Connection<u8, &'static str> {
    Connection { handle, permit: Some("permit") }
}

fn refusal(step: QueryStep<u8, &'static str, u32>) -> (u16, String) {
    match step {
        QueryStep::Refuse(e) => (e.status.code(), e.message),
        _ => panic!("not refused"),
    }
}

#[test]
fn refusals_of_admin_queries_have_a_status() {
    let e = refused_statements("near x");
    assert_eq!((e.status.code(), e.message.as_str()), (400, "near x"));
    let e = missing_namespace("no such namespace");
    assert_eq!((e.status.code(), e.message.as_str()), (404, "no such namespace"));
}

#[test]
fn admin_queries_share_a_connection() {
    let mut cache = ConnCache::new();
    // The first query creates the connection, the second one waits for it.
    assert!(matches!(query_connect(&mut cache, batch(), "gone"), QueryStep::Create { .. }));
    assert!(matches!(query_connect(&mut cache, batch(), "gone"), QueryStep::Wait { .. }));
    let (step, wake) = query_created(&mut cache, batch(), Ok(conn(7)));
    assert_eq!(wake, Wake::Nobody);
    let held = match step {
        QueryStep::Execute { conn, batch } => {
            assert_eq!(batch.len(), 1);
            conn
        }
        _ => panic!("no connection"),
    };
    assert_eq!((held.handle, held.permit), (7, Some("permit")));
    assert!(matches!(query_connect(&mut cache, batch(), "gone"), QueryStep::Wait { .. }));
    let (reply, wake) = query_finished(&mut cache, held, Ok(vec![1, 2]));
    assert_eq!(reply.unwrap(), [1, 2]);
    assert_eq!(wake, Wake::One);
    let held = match query_connect(&mut cache, batch(), "gone") {
        QueryStep::Execute { conn, batch } => {
            assert_eq!(batch[0].stmt.stmt, "SELECT 1");
            conn
        }
        _ => panic!("no connection"),
    };
    assert_eq!((held.handle, held.permit), (7, None));
    let (reply, _) = query_finished(&mut cache, held, Err("no table".to_string()));
    let e = reply.unwrap_err();
    assert_eq!((e.status.code(), e.message.as_str()), (500, "no table"));
    assert_eq!(cache.idle_count(), 1);
}

#[test]
fn admin_query_without_a_connection_is_refused() {
    let mut cache = ConnCache::new();
    assert!(matches!(query_connect(&mut cache, batch(), "gone"), QueryStep::Create { .. }));
    let (step, wake) = query_created(&mut cache, batch(), Err("timed out".to_string()));
    assert_eq!(refusal(step), (500, "timed out".to_string()));
    assert_eq!(wake, Wake::All);
    assert!(matches!(query_connect(&mut cache, batch(), "gone"), QueryStep::Create { .. }));
    cache.close();
    let step = query_connect(&mut cache, batch(), "gone");
    assert_eq!(refusal(step), (404, "gone".to_string()));
    let (_, wake) = query_finished(&mut cache, conn(1), Ok(Vec::new()));
    assert_eq!(wake, Wake::Nobody);
    assert_eq!(cache.idle_count(), 0);
}
