use hyper::header::{HeaderMap, HeaderValue};
use libsql_server::auth::{accepts_bearer, admin_auth, require_admin, Authenticated};
use libsql_server::db_factory::{
    authenticate_request, namespace_from_headers, path_target, resolve_namespace,
    MakeConnectionExtractor, MakeConnectionExtractorPath,
};
use libsql_server::error::{Error, ErrorKind};
use libsql_server::headers::read_header;
use libsql_server::http::{error_response, write_error_body, Status};
use libsql_server::namespace::NamespaceName;

fn headers(name: &'static str, value: &[u8]) -> HeaderMap<HeaderValue> {
    let mut map = HeaderMap::new();
    map.insert(name, HeaderValue::from_bytes(value).unwrap());
    map
}

fn named(name: &str) -> NamespaceName {
    NamespaceName { name: name.to_string() }
}

fn read_name(text: &str) -> Option<NamespaceName> {
    if text.is_empty() || text.contains('!') {
        None
    } else {
        Some(named(text))
    }
}

#[test]
fn header_is_read_as_text() {
    let map = headers("authorization", b"Bearer k");
    assert_eq!(read_header(&map, "authorization"), Some("Bearer k"));
    assert_eq!(read_header(&map, "Authorization"), Some("Bearer k"));
    assert_eq!(read_header(&map, "x-namespace"), None);
    assert_eq!(read_header(&map, "not a name"), None);
    assert_eq!(read_header(&headers("x-namespace", b"caf\xe9"), "x-namespace"), None);
    assert_eq!(read_header(&headers("x-namespace", b"a\tb"), "x-namespace"), Some("a\tb"));
    let mut twice = headers("x-namespace", b"first");
    twice.append("x-namespace", HeaderValue::from_static("second"));
    assert_eq!(read_header(&twice, "x-namespace"), Some("first"));
}

#[test]
fn bearer_token_is_the_second_word() {
    assert!(accepts_bearer(Some("Bearer secret"), "secret"));
    assert!(accepts_bearer(Some("  bEARER \t secret trailing"), "secret"));
    assert!(!accepts_bearer(Some("Basic secret"), "secret"));
    assert!(!accepts_bearer(Some("Bearer"), "secret"));
    assert!(!accepts_bearer(Some("Bearer secrets"), "secret"));
    assert!(!accepts_bearer(Some("Bearersecret"), "secret"));
    assert!(!accepts_bearer(Some(""), ""));
    assert!(!accepts_bearer(None, "secret"));
}

#[test]
fn admin_key_is_required() {
    assert_eq!(require_admin(&headers("authorization", b"Bearer k"), "k"), Ok(()));
    assert_eq!(require_admin(&headers("authorization", b"Bearer x"), "k"), Err(Status::Unauthorized));
    assert_eq!(require_admin(&HeaderMap::new(), "k"), Err(Status::Unauthorized));
    assert_eq!(
        require_admin(&headers("authorization", b"Bearer \xff"), "k"),
        Err(Status::Unauthorized)
    );
}

#[test]
fn admin_middleware_refuses() {
    let good = headers("authorization", b"bearer k");
    assert!(admin_auth(Some("k"), &good).is_ok());
    let e = admin_auth(None, &good).unwrap_err();
    assert_eq!((e.status.code(), e.message.as_str()), (503, "admin not configured"));
    let e = admin_auth(Some("k"), &HeaderMap::new()).unwrap_err();
    assert_eq!((e.status.code(), e.message.as_str()), (401, "Unauthorized"));
    let e = admin_auth(Some("other"), &good).unwrap_err();
    assert_eq!((e.status.code(), e.message.as_str()), (401, "Unauthorized"));
}

#[test]
fn status_codes_are_those_of_http() {
    let codes = [
        (Status::Success, 200),
        (Status::Created, 201),
        (Status::BadRequest, 400),
        (Status::Unauthorized, 401),
        (Status::NotFound, 404),
        (Status::Conflict, 409),
        (Status::InternalServerError, 500),
        (Status::ServiceUnavailable, 503),
    ];
    for (status, code) in codes {
        assert_eq!(status.code(), code);
    }
    let reply = error_response(Status::Conflict, "taken");
    assert_eq!((reply.status, reply.message.as_str()), (Status::Conflict, "taken"));
}

#[test]
fn error_body_is_json() {
    assert_eq!(write_error_body("Not found"), "{\"error\":\"Not found\"}");
    let message = "a \"b\" \\ \u{1} \n é \u{7f} \u{1f} \u{8} \u{c}";
    let value: serde_json::Value = serde_json::from_str(&write_error_body(message)).unwrap();
    assert_eq!(value["error"], message);
    assert_eq!(value.to_string(), write_error_body(message));
}

#[test]
fn namespace_is_taken_from_the_header() {
    let map = headers("x-namespace", b"ns1");
    let ns = namespace_from_headers(&map, named("default"), false, false, read_name).unwrap();
    assert_eq!(ns.as_str(), "ns1");
    let ns = namespace_from_headers(&map, named("default"), true, false, read_name).unwrap();
    assert_eq!(ns.as_str(), "ns1");
    // With namespaces disabled the header does not count.
    let ns = namespace_from_headers(&map, named("default"), true, true, read_name).unwrap();
    assert_eq!(ns.as_str(), "default");
}

#[test]
fn namespace_falls_back_to_the_default() {
    for map in [HeaderMap::new(), headers("x-namespace", b"no!"), headers("x-namespace", b"\xff")] {
        let ns = namespace_from_headers(&map, named("default"), false, false, read_name).unwrap();
        assert_eq!(ns.as_str(), "default");
        let e = namespace_from_headers(&map, named("default"), true, false, read_name).unwrap_err();
        assert_eq!(e.kind, ErrorKind::InvalidHost);
        assert_eq!(e.message, "missing x-namespace header");
    }
    assert_eq!(
        resolve_namespace(Some(named("a")), named("d"), true, false).unwrap().as_str(),
        "a"
    );
}

#[test]
fn requests_have_full_access() {
    let map = headers("x-namespace", b"ns1");
    let (auth, ns) = authenticate_request(&map, named("d"), false, false, read_name).unwrap();
    assert_eq!(auth, Authenticated::FullAccess);
    assert_eq!(ns.as_str(), "ns1");
    let e = authenticate_request(&HeaderMap::new(), named("d"), true, false, read_name).unwrap_err();
    assert_eq!(e.kind, ErrorKind::InvalidHost);
}

#[test]
fn path_names_the_target() {
    let access = || Ok((Authenticated::FullAccess, named("header")));
    let (_, ns) = path_target(access(), Ok(named("path"))).unwrap();
    assert_eq!(ns.as_str(), "path");
    let e = path_target(access(), Err("bad".to_string())).unwrap_err();
    assert_eq!((e.kind, e.message.as_str()), (ErrorKind::InvalidPath, "bad"));
    let e = path_target(Err(Error::new(ErrorKind::InvalidHost, "h")), Ok(named("p"))).unwrap_err();
    assert_eq!((e.kind, e.message.as_str()), (ErrorKind::InvalidHost, "h"));
    assert_eq!(MakeConnectionExtractor(1).0 + MakeConnectionExtractorPath(2).0, 3);
}
