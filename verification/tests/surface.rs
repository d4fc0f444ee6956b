use std::collections::HashSet;

use base64::Engine;
use hyper::header::{HeaderMap, HeaderValue};
use libsql_server::error::ErrorKind;
use libsql_server::http::Status;
use libsql_server::metrics::{init_metrics, render_metrics};
use libsql_server::platform::MinitursoConfig;
use libsql_server::replication::{authenticate, LoadError, RpcCode};
use libsql_server::routes::{
    admin_router, admin_routes, docs_routes, guard, main_routes, platform_routes, user_routes,
    Endpoint, Method,
};
use libsql_server::static_files::{
    admin_static, content_type, serve_static, static_after_check, static_after_probe,
    static_after_read, ReadOutcome, StaticPath, StaticStep,
};
use libsql_server::user_api::{
    handle_fallback, handle_health, handle_info, handle_version, hrana_version, migration_details,
    migration_target, show_console, Configured, HranaVersion, Json, UserApi,
};
use libsql_server::value::{DbValue, JsonValue};

fn config(public_dir: Option<&str>) -> MinitursoConfig {
    MinitursoConfig {
        admin_key: String::new(),
        version: String::new(),
        data_dir: String::new(),
        sqld_data_dir: String::new(),
        public_dir: public_dir.map(|d| d.to_string()),
        scheme: "http".to_string(),
        host: "h".to_string(),
        port: 80,
        connection_url: None,
        admin_listen_addr: String::new(),
    }
}

fn api(acceptor: Option<u8>) -> UserApi<u8, &'static str, u16, u32, u64> {
    UserApi {
        http_acceptor: acceptor,
        namespaces: "namespaces",
        idle_shutdown_kicker: Some(2),
        proxy_service: 3,
        replication_service: 4,
        disable_default_namespace: true,
        disable_namespaces: false,
        max_response_size: 5,
        enable_console: true,
        self_url: Some("self".to_string()),
        primary_url: Some("primary".to_string()),
        admin_api_key: Some("key".to_string()),
    }
}

#[test]
fn nothing_is_served_without_an_acceptor() {
    let make = |url: Option<String>| format!("hrana at {}", url.unwrap());
    match api(None).configure(make) {
        Configured::Idle(server) => assert_eq!(server, "hrana at self"),
        Configured::Serving(_) => panic!("served"),
    }
    let serving = match api(Some(1)).configure(make) {
        Configured::Serving(serving) => serving,
        Configured::Idle(_) => panic!("not served"),
    };
    assert_eq!(serving.acceptor, 1);
    assert_eq!(serving.idle_shutdown_kicker, Some(2));
    assert_eq!(serving.proxy_service, 3);
    assert_eq!(serving.replication_service, 4);
    assert_eq!(serving.state.namespaces, "namespaces");
    assert_eq!(serving.state.hrana_http_srv, "hrana at self");
    assert!(serving.state.enable_console);
    assert!(serving.state.disable_default_namespace);
    assert!(!serving.state.disable_namespaces);
    assert_eq!(serving.state.primary_url.as_deref(), Some("primary"));
    assert_eq!(serving.state.admin_api_key.as_deref(), Some("key"));
}

#[test]
fn protocol_versions_are_read() {
    assert_eq!(hrana_version("2").unwrap(), HranaVersion::Hrana2);
    assert_eq!(hrana_version("3").unwrap(), HranaVersion::Hrana3);
    for bad in ["", "1", "23", "v2", " 2"] {
        let e = hrana_version(bad).unwrap_err();
        assert_eq!((e.kind, e.message.as_str()), (ErrorKind::InvalidPath, "invalid hrana version"));
    }
}

#[test]
fn plain_pages_have_a_status() {
    assert_eq!(show_console(true), Status::Success);
    assert_eq!(show_console(false), Status::NotFound);
    assert_eq!(handle_health(), Status::Success);
    assert_eq!(handle_fallback(), Status::NotFound);
    assert_eq!(handle_info(), Status::NotFound);
    assert_eq!(Json(4).0, 4);
}

#[test]
fn version_is_reported_as_json() {
    assert_eq!(handle_version(None), "{\"version\":\"dev\"}");
    assert_eq!(handle_version(Some("1.2".to_string())), "{\"version\":\"1.2\"}");
    let value: serde_json::Value =
        serde_json::from_str(&handle_version(Some("a\"b".to_string()))).unwrap();
    assert_eq!(value["version"], "a\"b");
}

#[test]
fn migrations_need_a_shared_schema() {
    assert!(migration_target(true).is_ok());
    assert_eq!(migration_target(false).unwrap_err().kind, ErrorKind::InvalidNamespace);
    assert_eq!(migration_details(Some(7)).unwrap(), 7);
    let missing: Option<u8> = None;
    assert_eq!(migration_details(missing).unwrap_err().kind, ErrorKind::MigrationJobNotFound);
}

#[test]
fn values_become_json() {
    assert!(matches!(DbValue::Null.to_json(), Ok(JsonValue::Null)));
    assert!(matches!(DbValue::Integer(-5).to_json(), Ok(JsonValue::Integer(-5))));
    for x in [0.0, -0.0, 1.5, f64::MIN, f64::MAX, f64::MIN_POSITIVE, 5e-324] {
        match DbValue::Real(x.to_bits()).to_json() {
            Ok(JsonValue::Real(bits)) => assert_eq!(bits, x.to_bits()),
            _ => panic!("{x}"),
        }
    }
    match DbValue::Text("t".to_string()).to_json() {
        Ok(JsonValue::Text(s)) => assert_eq!(s, "t"),
        _ => panic!("no text"),
    }
}

#[test]
fn non_finite_numbers_are_no_json() {
    for x in [f64::NAN, -f64::NAN, f64::INFINITY, f64::NEG_INFINITY, f64::from_bits(0x7ff0_0000_0000_0001)] {
        let e = DbValue::Real(x.to_bits()).to_json().unwrap_err();
        assert_eq!(e.kind, ErrorKind::DbValueError);
        assert_eq!(e.message, format!("Cannot to convert database value `{x}` to a JSON number"));
        assert!(serde_json::Number::from_f64(x).is_none());
    }
}

#[test]
fn blobs_become_base64() {
    for len in 0..70 {
        let bytes: Vec<u8> = (0..len).map(|i| (i * 37 + 251) as u8).collect();
        match DbValue::Blob(bytes.clone()).to_json() {
            Ok(JsonValue::Base64(text)) => {
                assert_eq!(text, base64::prelude::BASE64_STANDARD_NO_PAD.encode(&bytes));
            }
            _ => panic!("no base64"),
        }
    }
    match DbValue::Blob(vec![0xfb, 0xff, 0xbf]).to_json() {
        Ok(JsonValue::Base64(text)) => assert_eq!(text, "+/+/"),
        _ => panic!("no base64"),
    }
}

#[test]
fn routes_can_be_told_apart() {
    for table in [main_routes(), admin_router()] {
        let mut seen = HashSet::new();
        for route in &table {
            assert!(seen.insert((format!("{:?}", route.method), route.path)), "{}", route.path);
        }
    }
    let total =
        user_routes().len() + platform_routes().len() + admin_routes().len() + docs_routes().len();
    assert_eq!(main_routes().len(), total);
    assert_eq!(total, 33);
}

#[test]
fn documented_paths_have_routes() {
    let paths: HashSet<String> = main_routes()
        .iter()
        .map(|r| {
            let segments: Vec<String> = r
                .path
                .split('/')
                .map(|s| match s.strip_prefix(':') {
                    Some(name) => format!("{{{name}}}"),
                    None => s.to_string(),
                })
                .collect();
            segments.join("/")
        })
        .collect();
    for expected in [
        "/v1/namespaces/{namespace}/create",
        "/v1/namespaces/{namespace}/config",
        "/v1/namespaces/{namespace}/checkpoint",
        "/v1/namespaces/{namespace}/compact",
        "/v1/namespaces/{namespace}/replication",
        "/v1/namespaces/{namespace}/fork/{to}",
        "/v1/namespaces/{namespace}",
        "/v1/namespaces/{namespace}/stats",
        "/v1/namespaces/{namespace}/stats/{stats_type}",
        "/v1/diagnostics",
        "/metrics",
        "/api/queries",
        "/health",
        "/version",
        "/openapi.json",
        "/docs",
    ] {
        assert!(paths.contains(expected), "missing path {expected}");
    }
}

#[test]
fn management_routes_ask_for_the_admin_key() {
    let empty = HeaderMap::new();
    let mut good = HeaderMap::new();
    good.insert("authorization", HeaderValue::from_static("Bearer key"));
    for route in main_routes() {
        let protected = route.path.starts_with("/v1/namespaces/")
            || route.path == "/v1/diagnostics"
            || route.path == "/metrics";
        let status = |key: Option<&str>, headers: &HeaderMap<HeaderValue>| {
            guard(route.endpoint, key, headers).map_err(|e| e.status.code())
        };
        if protected {
            assert_eq!(status(None, &good), Err(503), "{}", route.path);
            assert_eq!(status(Some("key"), &empty), Err(401), "{}", route.path);
            assert_eq!(status(Some("other"), &good), Err(401), "{}", route.path);
        } else {
            assert_eq!(status(None, &empty), Ok(()), "{}", route.path);
        }
        assert_eq!(status(Some("key"), &good), Ok(()), "{}", route.path);
    }
    assert!(guard(Endpoint::Queries, None, &empty).is_ok());
    assert!(guard(Endpoint::Metrics, None, &empty).is_err());
}

#[test]
fn routes_lead_to_their_endpoints() {
    let find = |method: Method, path: &str| {
        main_routes()
            .iter()
            .find(|r| r.method == method && r.path == path)
            .map(|r| r.endpoint)
    };
    assert_eq!(find(Method::Post, "/"), Some(Endpoint::Query));
    assert_eq!(find(Method::Get, "/"), None);
    assert_eq!(find(Method::Post, "/v3-protobuf/cursor"), Some(Endpoint::Hrana3ProtobufCursor));
    assert_eq!(find(Method::Get, "/metrics"), Some(Endpoint::Metrics));
    let patch: Vec<Endpoint> = admin_router()
        .iter()
        .filter(|r| r.method == Method::Patch)
        .map(|r| r.endpoint)
        .collect();
    assert_eq!(patch, [Endpoint::RenameDatabase]);
}

fn fails(step: StaticStep, code: u16, text: &str) {
    match step {
        StaticStep::Fail { status, message } => assert_eq!((status.code(), message), (code, text)),
        _ => panic!("no failure"),
    }
}

fn not_found(step: StaticStep) {
    fails(step, 404, "Not found");
}

#[test]
fn api_paths_are_no_files() {
    let built = config(Some("/ui"));
    not_found(admin_static(Some(&built), "/api/unknown"));
    not_found(admin_static(None, "/api/unknown"));
    fails(admin_static(None, "/index.html"), 200, "Not found");
    fails(admin_static(None, "/"), 200, "Not found");
    not_found(admin_static(Some(&config(None)), "/index.html"));
    not_found(serve_static(&config(None), "/"));
    for (path, expected) in [("/", ""), ("//a/b.js", "a/b.js"), ("/api", "api"), ("x", "x")] {
        match admin_static(Some(&built), path) {
            StaticStep::Probe { relative } => assert_eq!(relative, expected),
            _ => panic!("not served"),
        }
    }
}

#[test]
fn missing_files_are_the_index() {
    let path = match static_after_probe("assets".to_string(), true) {
        StaticStep::Check { path } => path,
        _ => panic!("not checked"),
    };
    assert_eq!((path.relative.as_str(), path.index), ("assets", true));
    match static_after_check(path, true) {
        StaticStep::Read { path } => assert_eq!((path.relative.as_str(), path.index), ("assets", true)),
        _ => panic!("not read"),
    }
    let path = StaticPath { relative: "deep/link".to_string(), index: false };
    match static_after_check(path, false) {
        StaticStep::Read { path } => assert_eq!((path.relative.as_str(), path.index), ("", true)),
        _ => panic!("not read"),
    }
}

#[test]
fn files_are_served_with_their_type() {
    let page = StaticPath { relative: "page".to_string(), index: false };
    let types = [
        (Some("html"), "text/html; charset=utf-8"),
        (Some("js"), "application/javascript"),
        (Some("css"), "text/css"),
        (Some("json"), "application/json"),
        (Some("svg"), "image/svg+xml"),
        (Some("png"), "image/png"),
        (Some("ico"), "image/x-icon"),
        (Some("woff2"), "font/woff2"),
        (Some("HTML"), "application/octet-stream"),
        (None, "application/octet-stream"),
    ];
    for (extension, expected) in types {
        assert_eq!(content_type(extension), expected);
        match static_after_read(&page, ReadOutcome::Finished, extension) {
            StaticStep::Reply { content_type } => assert_eq!(content_type, expected),
            _ => panic!("no reply"),
        }
    }
}

#[test]
fn unreadable_files_are_told_apart() {
    let index = StaticPath { relative: String::new(), index: true };
    not_found(static_after_read(&index, ReadOutcome::Missing, Some("html")));
    fails(static_after_read(&index, ReadOutcome::NotOpened, Some("html")), 200, "Not found");
    let others = [("a.js", false), ("assets", true), ("", false)];
    for (relative, index) in others {
        let path = StaticPath { relative: relative.to_string(), index };
        fails(static_after_read(&path, ReadOutcome::Missing, Some("js")), 200, "Not found");
        fails(static_after_read(&path, ReadOutcome::NotOpened, Some("js")), 200, "Not found");
        fails(static_after_read(&path, ReadOutcome::NotRead, Some("js")), 200, "failed to read file");
    }
}

#[test]
fn metrics_are_set_up_once() {
    assert!(init_metrics(true, None, "1").is_none());
    let recorder = init_metrics(false, None, "1").unwrap();
    assert_eq!(recorder.idle_timeout_secs, 120);
    assert!(recorder.global_labels.is_empty());
    let recorder = init_metrics(false, Some("shop".to_string()), "1").unwrap();
    let labels: Vec<(&str, &str)> =
        recorder.global_labels.iter().map(|(k, v)| (k.as_str(), v.as_str())).collect();
    assert_eq!(labels, [("app", "shop"), ("version", "1")]);
    assert_eq!(render_metrics(Some("text".to_string())), "text");
    assert_eq!(render_metrics(None), "");
}

#[test]
fn replicas_need_their_namespace() {
    let failed = |kind| Err(LoadError { kind, text: "text".to_string() });
    assert!(authenticate(Ok(()), false, "GONE").is_ok());
    assert!(authenticate(failed(ErrorKind::NamespaceDoesntExist), true, "GONE").is_ok());
    let e = authenticate(failed(ErrorKind::NamespaceDoesntExist), false, "GONE").unwrap_err();
    assert_eq!((e.code, e.message.as_str()), (RpcCode::FailedPrecondition, "GONE"));
    for fallback in [true, false] {
        let e = authenticate(failed(ErrorKind::Internal), fallback, "GONE").unwrap_err();
        assert_eq!((e.code, e.message.as_str()), (RpcCode::Internal, "Error loading namespace: text"));
    }
}
