use libsql_server::conn_cache::{ConnCache, Connection, Take, Wake};
use libsql_server::namespace::NamespaceName;
use libsql_server::shell::{
    format_rows, shell_step, AdminShellClient, Rows, ShellAction, ShellEvent, ShellValue,
};

fn conn(handle: u32) -> Connection<u32, &'static str> {
    Connection { handle, permit: Some("permit") }
}

fn new_cache() -> ConnCache<u32, &'static str> {
    ConnCache::new()
}

#[test]
fn first_request_creates_the_connection() {
    let mut cache = new_cache();
    assert!(matches!(cache.take(), Take::Create));
    assert!(matches!(cache.take(), Take::Wait));
    let (created, wake) = cache.created(Some(conn(1)));
    assert_eq!(created.unwrap().handle, 1);
    assert_eq!(wake, Wake::Nobody);
    assert!(matches!(cache.take(), Take::Wait));
    assert_eq!(cache.idle_count(), 0);
}

#[test]
fn released_connection_is_handed_on() {
    let mut cache = new_cache();
    assert!(matches!(cache.take(), Take::Create));
    assert_eq!(cache.put(conn(1)), Wake::One);
    assert_eq!(cache.idle_count(), 1);
    match cache.take() {
        Take::Ready(c) => assert_eq!((c.handle, c.permit), (1, None)),
        _ => panic!("not ready"),
    }
    assert_eq!(cache.idle_count(), 0);
    assert!(matches!(cache.take(), Take::Wait));
}

#[test]
fn second_connection_is_dropped() {
    let mut cache = new_cache();
    assert_eq!(cache.put(conn(1)), Wake::One);
    assert_eq!(cache.put(conn(2)), Wake::Nobody);
    match cache.take() {
        Take::Ready(c) => assert_eq!(c.handle, 1),
        _ => panic!("not ready"),
    }
}

#[test]
fn failed_creation_lets_the_next_request_try() {
    let mut cache = new_cache();
    assert!(matches!(cache.take(), Take::Create));
    let (created, wake) = cache.created(None);
    assert!(created.is_none());
    assert_eq!(wake, Wake::All);
    assert!(matches!(cache.take(), Take::Create));
}

#[test]
fn closed_cache_serves_nothing() {
    let mut cache = new_cache();
    assert!(matches!(cache.take(), Take::Create));
    cache.put(conn(1));
    assert_eq!(cache.close(), Wake::All);
    assert_eq!(cache.idle_count(), 0);
    assert!(matches!(cache.take(), Take::Closed));
    assert_eq!(cache.put(conn(2)), Wake::Nobody);
    assert_eq!(cache.idle_count(), 0);
    cache.created(None);
    assert!(matches!(cache.take(), Take::Closed));
}

#[test]
fn permit_is_released() {
    let mut c = conn(3);
    c.release_throttle_permit();
    assert_eq!((c.handle, c.permit), (3, None));
}

// The shell.

fn namespace(name: &str) -> NamespaceName {
    NamespaceName { name: name.to_string() }
}

#[test]
fn metadata_names_the_namespace() {
    let client = AdminShellClient::new("http://remote".to_string(), None);
    assert_eq!(client.remote_url(), "http://remote");
    let metadata = client.request_metadata(&namespace("ns"));
    assert_eq!(metadata, [("x-namespace".to_string(), "ns".to_string())]);
    let client = AdminShellClient::new(String::new(), Some("abc".to_string()));
    let metadata = client.request_metadata(&namespace("ns"));
    assert_eq!(metadata.len(), 2);
    assert_eq!(metadata[1], ("authorization".to_string(), "basic abc".to_string()));
}

fn rows(rows: Vec<Vec<ShellValue>>) -> Rows {
    Rows { rows: rows.into_iter().map(|r| r.into_iter().map(Some).collect()).collect() }
}

#[test]
fn rows_are_printed_line_by_line() {
    let printed = format_rows(&rows(vec![
        vec![ShellValue::Null, ShellValue::Integer(-3), ShellValue::Real("1.5".to_string())],
        vec![],
        vec![ShellValue::Text("a b".to_string()), ShellValue::Blob(vec![0, 10, 16, 255])],
    ]));
    assert_eq!(printed, "null, -3, 1.5\n\na b, 0a10ff\n");
    let mut expected = String::new();
    for x in 0..=255_u8 {
        expected.push_str(&format!("{x:0x}"));
    }
    let blob = ShellValue::Blob((0..=255).collect());
    assert_eq!(format_rows(&rows(vec![vec![blob]])), expected + "\n");
    assert_eq!(format_rows(&rows(vec![])), "");
}

#[test]
fn shell_sends_prints_and_quits() {
    let text = |s: &str| s.to_string();
    match shell_step(ShellEvent::Line(text("SELECT 1"))) {
        ShellAction::Send(q) => assert_eq!(q, "SELECT 1"),
        _ => panic!("not sent"),
    }
    let printed = |event| match shell_step(event) {
        ShellAction::Print(s) => s,
        _ => panic!("not printed"),
    };
    assert_eq!(printed(ShellEvent::PromptFailed(text("tty"))), "error: tty");
    assert_eq!(printed(ShellEvent::QueryFailed(text("no table"))), "query error: no table");
    let reply = rows(vec![vec![ShellValue::Integer(1)]]);
    assert_eq!(printed(ShellEvent::Rows(reply)), "1\n");
    match shell_step(ShellEvent::RpcFailed(text("down"))) {
        ShellAction::PrintAndQuit(s) => assert_eq!(s, "rpc error: down"),
        _ => panic!("not quit"),
    }
    assert!(matches!(shell_step(ShellEvent::NoReply), ShellAction::Quit));
}
