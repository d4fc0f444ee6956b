use libsql_server::namespace::NamespaceName;
use libsql_server::query_registry::{
    clock_ticks, cpu_time_fields, is_truncatable, thread_stat_path, truncate, Program,
    QueryRegistry, ThreadInfo, HEARTBEAT_INTERVAL_MS, HEARTBEAT_TIMEOUT_MS, MAX_SQL_LENGTH,
};

const MS: u64 = 1_000_000;

fn namespace(name: &str) -> NamespaceName {
    NamespaceName { name: name.to_string() }
}

fn thread() -> ThreadInfo {
    ThreadInfo { thread_id: "ThreadId(1)".to_string(), tid: 77 }
}

fn program(steps: &[&str]) -> Program {
    Program { steps: steps.iter().map(|s| s.to_string()).collect() }
}

#[test]
fn register_touch_snapshot_and_guard_removal() {
    let pgm = program(&["SELECT 1", "SELECT 2"]);
    let key = 42;
    let mut registry = QueryRegistry::new();

    registry.register(key, namespace("test-ns"), &pgm, thread(), 5 * MS);
    let entries = registry.snapshot(6 * MS);
    assert_eq!(entries.len(), 1);
    let entry = &entries[0];
    assert_eq!(entry.conn_id, key);
    assert_eq!(entry.kind, "query");
    assert_eq!(entry.namespace, "test-ns");
    assert_eq!(entry.current_sql, "SELECT 1");
    assert_eq!(entry.total_steps, 2);
    assert_eq!(entry.state, "running");
    assert!(entry.elapsed_ms < 1000);

    registry.touch(key, 1, 2, "SELECT 2", 7 * MS);
    let entry = &registry.snapshot(8 * MS)[0];
    assert_eq!(entry.current_step, 1);
    assert_eq!(entry.current_sql, "SELECT 2");

    registry.heartbeat(key, 9 * MS);
    let entry = &registry.snapshot(10 * MS)[0];
    assert_eq!(entry.state, "running");

    registry.remove(key);
    assert!(registry.snapshot(11 * MS).is_empty());
}

#[test]
fn truncates_long_sql() {
    let long_sql = "SELECT ".repeat(100);
    assert!(truncate(&long_sql).len() <= MAX_SQL_LENGTH + 3);
}

#[test]
fn register_sync_job() {
    let mut registry = QueryRegistry::new();
    registry.register_job(
        7,
        namespace("replica-ns"),
        "sync frames: frame 42".to_string(),
        thread(),
        0,
    );
    let entry = &registry.snapshot(0)[0];
    assert_eq!(entry.conn_id, 7);
    assert_eq!(entry.kind, "sync");
    assert_eq!(entry.namespace, "replica-ns");
    assert_eq!(entry.current_sql, "sync frames: frame 42");
    assert_eq!(entry.total_steps, 0);
    registry.remove(7);
    assert!(registry.snapshot(1).is_empty());
}

#[test]
fn sql_is_trimmed_and_cut() {
    assert_eq!(truncate("  SELECT 1 \n"), "SELECT 1");
    let exact = "x".repeat(200);
    assert_eq!(truncate(&exact), exact);
    let long = "x".repeat(201);
    assert_eq!(truncate(&long), format!("{exact}..."));
    assert_eq!(truncate(""), "");
    // The length counts bytes.
    let accents = "é".repeat(101);
    assert!(is_truncatable(&accents));
    assert_eq!(truncate(&accents), format!("{}...", "é".repeat(100)));
    assert!(!is_truncatable(&format!("a{accents}")));
    assert!(is_truncatable(&"é".repeat(100)));
}

#[test]
fn longest_running_is_listed_first() {
    let mut registry = QueryRegistry::new();
    for (key, at) in [(1, 30), (2, 10), (3, 20), (4, 10)] {
        registry.register(key, namespace("ns"), &program(&["S"]), thread(), at * MS);
    }
    let list = registry.snapshot(40 * MS);
    let elapsed: Vec<u64> = list.iter().map(|q| q.elapsed_ms).collect();
    assert_eq!(elapsed, [30, 30, 20, 10]);
    let mut keys: Vec<usize> = list.iter().map(|q| q.conn_id).collect();
    assert_eq!(keys[2..], [3, 1]);
    keys.sort();
    assert_eq!(keys, [1, 2, 3, 4]);
}

#[test]
fn query_without_progress_is_blocked() {
    let mut registry = QueryRegistry::new();
    registry.register(1, namespace("ns"), &program(&["S"]), thread(), 0);
    let state = |registry: &QueryRegistry, now: u64| registry.snapshot(now)[0].state;
    assert_eq!(state(&registry, 1000 * MS - 1), "running");
    assert_eq!(state(&registry, 1000 * MS), "running");
    assert_eq!(state(&registry, 1000 * MS + 1), "blocked");
    registry.heartbeat(1, 1500 * MS);
    assert_eq!(state(&registry, 2400 * MS), "running");
    assert_eq!(state(&registry, 2500 * MS), "running");
    assert_eq!(state(&registry, 2500 * MS + 1), "blocked");
    let entry = &registry.snapshot(2500 * MS)[0];
    assert_eq!((entry.elapsed_ms, entry.last_heartbeat_ms_ago), (2500, 1000));
    // A clock that stands behind counts as no time.
    assert_eq!(registry.snapshot(0)[0].last_heartbeat_ms_ago, 0);
    assert_eq!((HEARTBEAT_TIMEOUT_MS, HEARTBEAT_INTERVAL_MS), (1000, 50));
}

#[test]
fn unknown_keys_change_nothing() {
    let mut registry = QueryRegistry::new();
    assert!(!registry.is_registered(1));
    registry.touch(1, 2, 3, "S", 4);
    registry.touch(1, 2, 3, &format!("a{}", "é".repeat(101)), 4);
    registry.heartbeat(1, 5);
    registry.set_thread_info(1, thread());
    registry.remove(1);
    assert!(registry.snapshot(6).is_empty());
}

#[test]
fn thread_is_recorded_when_it_starts() {
    let mut registry = QueryRegistry::new();
    registry.register(1, namespace("a"), &program(&[]), thread(), 0);
    registry.register(2, namespace("b"), &program(&["S"]), thread(), 1);
    registry.set_thread_info(1, ThreadInfo { thread_id: "ThreadId(9)".to_string(), tid: 5 });
    let list = registry.snapshot(2);
    assert_eq!((list[0].thread_id.as_str(), list[0].tid), ("ThreadId(9)", 5));
    assert_eq!((list[0].current_sql.as_str(), list[0].total_steps), ("", 0));
    assert_eq!((list[1].thread_id.as_str(), list[1].tid), ("ThreadId(1)", 77));
}

#[test]
fn registering_again_replaces_the_entry() {
    let mut registry = QueryRegistry::new();
    registry.register(1, namespace("a"), &program(&["A"]), thread(), 0);
    registry.register_job(1, namespace("b"), "job".to_string(), thread(), 3 * MS);
    let list = registry.snapshot(4 * MS);
    assert_eq!(list.len(), 1);
    assert_eq!((list[0].kind, list[0].namespace.as_str()), ("sync", "b"));
    assert_eq!((list[0].current_sql.as_str(), list[0].elapsed_ms), ("job", 1));
}

#[test]
fn cpu_times_are_found_in_the_statistics() {
    let line = "12 (a) b) c) S 1 2 3 4 5 6 7 8 9 10 111 222 0 0";
    assert_eq!(cpu_time_fields(line), (Some("111".to_string()), Some("222".to_string())));
    assert_eq!(cpu_time_fields("12 (x S 1 2"), (None, None));
    let short = "12 (x) S 1 2 3 4 5 6 7 8 9 10 111";
    assert_eq!(cpu_time_fields(short), (Some("111".to_string()), None));
    assert_eq!(thread_stat_path(42).as_deref(), Some("/proc/self/task/42/stat"));
    assert_eq!(thread_stat_path(0), None);
    assert_eq!(thread_stat_path(-1), None);
    assert_eq!(clock_ticks(Some(250)), 250);
    assert_eq!(clock_ticks(Some(0)), 100);
    assert_eq!(clock_ticks(Some(-1)), 100);
    assert_eq!(clock_ticks(None), 100);
}
