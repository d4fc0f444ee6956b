use libsql_server::platform::{connection_host, format_bytes, valid_database_id, MinitursoConfig};
use libsql_server::records::{
    database_path, enrich_database, read_stats, row_to_record, stats_from, stats_path, Column,
    DatabaseRecord,
};

fn config(scheme: &str, port: u16, url: Option<&str>) -> MinitursoConfig {
    MinitursoConfig {
        admin_key: String::new(),
        version: String::new(),
        data_dir: String::new(),
        sqld_data_dir: String::new(),
        public_dir: None,
        scheme: scheme.to_string(),
        host: "h".to_string(),
        port,
        connection_url: url.map(|u| u.to_string()),
        admin_listen_addr: String::new(),
    }
}

#[test]
fn connection_url_omits_the_default_port() {
    let cases = [
        ("http", 80, None, "http://h"),
        ("http", 8080, None, "http://h:8080"),
        ("http", 443, None, "http://h:443"),
        ("https", 443, None, "https://h"),
        ("https", 80, None, "https://h:80"),
        ("libsql", 80, None, "libsql://h"),
        ("libsql", 0, None, "libsql://h:0"),
        ("http", 65535, None, "http://h:65535"),
        ("http", 80, Some("libsql://other"), "libsql://other"),
    ];
    for (scheme, port, url, expected) in cases {
        assert_eq!(config(scheme, port, url).connection_url(), expected);
    }
}

#[test]
fn host_is_the_url_without_its_scheme() {
    for url in
        ["http://h", "https://h:1", "libsql://h", "http://http://h", "http://https://h", "h", ""]
    {
        let expected = url.trim_start_matches("http://").trim_start_matches("https://");
        assert_eq!(connection_host(url), expected);
    }
    assert_eq!(connection_host(&config("https", 8443, None).connection_url()), "h:8443");
    assert_eq!(connection_host("https://http://h"), "http://h");
}

#[test]
fn ids_are_short_and_plain() {
    assert!(valid_database_id("a"));
    assert!(valid_database_id("0123456789abcdefghijklmnopqrstuvwxyz"));
    assert!(!valid_database_id("0123456789abcdefghijklmnopqrstuvwxyz0"));
    for bad in ["", "A", "_", "a b", "é", "`", "{", "/", ":"] {
        assert!(!valid_database_id(bad), "{bad}");
    }
}

fn formatted(bytes: u64) -> String {
    if bytes < 1024 {
        format!("{} B", bytes)
    } else if bytes < 1024 * 1024 {
        format!("{:.1} KB", bytes as f64 / 1024.0)
    } else {
        format!("{:.1} MB", bytes as f64 / (1024.0 * 1024.0))
    }
}

#[test]
fn sizes_are_printed_with_one_decimal() {
    assert_eq!(format_bytes(0), "0 B");
    assert_eq!(format_bytes(1023), "1023 B");
    assert_eq!(format_bytes(1024), "1.0 KB");
    assert_eq!(format_bytes(1536), "1.5 KB");
    assert_eq!(format_bytes(1024 * 1024 - 1), "1024.0 KB");
    assert_eq!(format_bytes(1024 * 1024), "1.0 MB");
    for bytes in 0..300_000 {
        assert_eq!(format_bytes(bytes), formatted(bytes));
    }
    let mut x: u64 = 0x9e37_79b9_7f4a_7c15;
    for shift in 0..64 {
        for k in 0..500 {
            x = x.wrapping_mul(6364136223846793005).wrapping_add(1442695040888963407 + k);
            let bytes = x >> shift;
            assert_eq!(format_bytes(bytes), formatted(bytes));
        }
        for d in 0..40 {
            let bytes = (1_u64 << shift).wrapping_add(d).wrapping_sub(20);
            assert_eq!(format_bytes(bytes), formatted(bytes));
        }
    }
    for step in 0..200_000 {
        let bytes = 1024 * 1024 + step * 52_429;
        assert_eq!(format_bytes(bytes), formatted(bytes));
    }
    assert_eq!(format_bytes(u64::MAX), formatted(u64::MAX));
}

fn row(values: &[&str]) -> Vec<Column> {
    values.iter().map(|v| Column::Text(v.to_string())).collect()
}

#[test]
fn rows_are_read_into_records() {
    let record = row_to_record(&row(&["i", "n", "pub", "priv", "c", "l"])).unwrap();
    assert_eq!(record.id, "i");
    assert_eq!(record.namespace, "n");
    assert_eq!(record.jwt_public_key, "pub");
    assert_eq!(record.jwt_private_key, "priv");
    assert_eq!(record.created_at, "c");
    assert_eq!(record.last_accessed_at.as_deref(), Some("l"));
    let mut columns = row(&["i", "n", "pub", "priv", "c"]);
    columns.push(Column::Null);
    assert_eq!(row_to_record(&columns).unwrap().last_accessed_at, None);
}

#[test]
fn wrong_columns_are_named() {
    for i in 0..6 {
        let mut columns = row(&["a", "b", "c", "d", "e", "f"]);
        columns[i] = Column::Other;
        assert_eq!(row_to_record(&columns).err(), Some(i));
        columns.truncate(i);
        assert_eq!(row_to_record(&columns).err(), Some(i));
    }
    let mut columns = row(&["a", "b", "c", "d", "e", "f"]);
    columns[2] = Column::Null;
    assert_eq!(row_to_record(&columns).err(), Some(2));
}

#[test]
fn stats_are_read_from_json() {
    assert!(read_stats(None).is_none());
    assert!(read_stats(Some("{")).is_none());
    let stats = read_stats(Some("{\"rows_read\":7,\"rows_written\":-1,\"query_count\":1.5}")).unwrap();
    assert_eq!(stats.rows_read, 7);
    assert_eq!(stats.rows_written, 0);
    assert_eq!(stats.query_count, 0);
    assert_eq!(stats.storage_bytes, 0);
    let stats = read_stats(Some("[1,2]")).unwrap();
    assert_eq!(stats.rows_read, 0);
    let value: serde_json::Value =
        serde_json::from_str("{\"storage_bytes_used\":18446744073709551615}").unwrap();
    assert_eq!(stats_from(&value).storage_bytes, u64::MAX);
}

#[test]
fn files_lie_below_the_namespace() {
    assert_eq!(stats_path("ns"), ["dbs", "ns", "stats.json"]);
    assert_eq!(database_path("ns"), ["dbs", "ns", "data"]);
}

#[test]
fn reports_leave_the_keys_out() {
    let record = DatabaseRecord {
        id: "i".to_string(),
        namespace: "n".to_string(),
        jwt_public_key: "PUBLIC".to_string(),
        jwt_private_key: "PRIVATE".to_string(),
        created_at: "c".to_string(),
        last_accessed_at: None,
    };
    let view = enrich_database(&config("http", 80, None), None, &record);
    let debug = format!("{view:?}");
    assert!(!debug.contains("PUBLIC") && !debug.contains("PRIVATE"));
    assert_eq!((view.id.as_str(), view.namespace.as_str()), ("i", "n"));
    assert_eq!((view.host.as_str(), view.connection_url.as_str()), ("h", "http://h"));
    let copy = record.clone();
    assert_eq!(copy.jwt_private_key, "PRIVATE");
}
