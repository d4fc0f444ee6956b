//! The HTTP surface for users of the databases.

use vstd::prelude::*;

use crate::encoding::{json_string, lemma_json_string_unambiguous, to_json_string};
use crate::error::{Error, ErrorKind};
use crate::http::Status;
use crate::text::{opt_string, str_eq};

verus! {

/// State that every request has access to.
pub struct AppState<N, H> {
    pub namespaces: N,
    pub hrana_http_srv: H,
    pub enable_console: bool,
    pub disable_default_namespace: bool,
    pub disable_namespaces: bool,
    pub primary_url: Option<String>,
    /// The key that protects the namespace management routes.
    pub admin_api_key: Option<String>,
}

/// What the HTTP surface is configured from.
pub struct UserApi<A, N, K, P, S> {
    pub http_acceptor: Option<A>,
    pub namespaces: N,
    pub idle_shutdown_kicker: Option<K>,
    pub proxy_service: P,
    pub replication_service: S,
    pub disable_default_namespace: bool,
    pub disable_namespaces: bool,
    pub max_response_size: u64,
    pub enable_console: bool,
    pub self_url: Option<String>,
    pub primary_url: Option<String>,
    pub admin_api_key: Option<String>,
}

/// What a server that accepts connections needs.
pub struct Serving<A, N, H, K, P, S> {
    pub acceptor: A,
    pub state: AppState<N, H>,
    pub idle_shutdown_kicker: Option<K>,
    pub proxy_service: P,
    pub replication_service: S,
}

/// What a configuration comes to.
pub enum Configured<A, N, H, K, P, S> {
    /// Connections are accepted.
    Serving(Serving<A, N, H, K, P, S>),
    /// Nothing is served; there is only the server for streams.
    Idle(H),
}

/// Whether a configuration comes to `r` around the server for streams `hrana_http_srv`.
pub open spec fn is_configured<A, N, H, K, P, S>(
    api: UserApi<A, N, K, P, S>,
    hrana_http_srv: H,
    r: Configured<A, N, H, K, P, S>,
) -> bool {
    match api.http_acceptor {
        None => r == Configured::<A, N, H, K, P, S>::Idle(hrana_http_srv),
        Some(acceptor) => r == Configured::Serving(
            Serving {
                acceptor,
                state: AppState {
                    namespaces: api.namespaces,
                    hrana_http_srv,
                    enable_console: api.enable_console,
                    disable_default_namespace: api.disable_default_namespace,
                    disable_namespaces: api.disable_namespaces,
                    primary_url: api.primary_url,
                    admin_api_key: api.admin_api_key,
                },
                idle_shutdown_kicker: api.idle_shutdown_kicker,
                proxy_service: api.proxy_service,
                replication_service: api.replication_service,
            },
        ),
    }
}

impl<A, N, K, P, S> UserApi<A, N, K, P, S> {
    /// Splits the configuration into what the server needs. The server for streams is made by
    /// `make_server` from the server's own URL. Without an acceptor nothing is served.
    pub fn configure<H, F: FnOnce(Option<String>) -> H>(self, make_server: F) -> (r: Configured<
        A,
        N,
        H,
        K,
        P,
        S,
    >)
        requires
            call_requires(make_server, (self.self_url,)),
        ensures
            exists|server: H| #[trigger]
                call_ensures(make_server, (self.self_url,), server) && is_configured(
                    self,
                    server,
                    r,
                ),
    {
        let hrana_http_srv = make_server(self.self_url);
        let ghost server = hrana_http_srv;
        let r = match self.http_acceptor {
            None => Configured::Idle(hrana_http_srv),
            Some(acceptor) => Configured::Serving(
                Serving {
                    acceptor,
                    state: AppState {
                        namespaces: self.namespaces,
                        hrana_http_srv,
                        enable_console: self.enable_console,
                        disable_default_namespace: self.disable_default_namespace,
                        disable_namespaces: self.disable_namespaces,
                        primary_url: self.primary_url,
                        admin_api_key: self.admin_api_key,
                    },
                    idle_shutdown_kicker: self.idle_shutdown_kicker,
                    proxy_service: self.proxy_service,
                    replication_service: self.replication_service,
                },
            ),
        };
        assert(is_configured(self, server, r));
        r
    }
}

/// A JSON body, read whatever content type the request declares.
#[derive(Debug, Clone, Copy, Default)]
#[must_use]
pub struct Json<T>(pub T);

/// The version of the stream protocol.
#[derive(Clone, Copy, Debug, PartialEq, Eq, Structural)]
pub enum HranaVersion {
    Hrana2,
    Hrana3,
}

/// The protocol version that a path names.
pub fn hrana_version(version: &str) -> (r: Result<HranaVersion, Error>)
    ensures
        match r {
            Ok(HranaVersion::Hrana2) => version@ == "2"@,
            Ok(HranaVersion::Hrana3) => version@ == "3"@,
            Err(e) => version@ != "2"@ && version@ != "3"@ && e@ == (
                ErrorKind::InvalidPath,
                "invalid hrana version"@,
            ),
        },
        version@ == "2"@ ==> r == Ok::<HranaVersion, Error>(HranaVersion::Hrana2),
        version@ == "3"@ ==> r == Ok::<HranaVersion, Error>(HranaVersion::Hrana3),
{
    proof {
        reveal_strlit("2");
        reveal_strlit("3");
        assert("2"@[0] != "3"@[0]);
    }
    if str_eq(version, "2") {
        Ok(HranaVersion::Hrana2)
    } else if str_eq(version, "3") {
        Ok(HranaVersion::Hrana3)
    } else {
        Err(Error::new(ErrorKind::InvalidPath, "invalid hrana version"))
    }
}

/// The status of a request for the console, which is not there unless it is enabled.
pub fn show_console(enable_console: bool) -> (r: Status)
    ensures
        r == if enable_console {
            Status::Success
        } else {
            Status::NotFound
        },
{
    if enable_console {
        Status::Success
    } else {
        Status::NotFound
    }
}

/// The body `{"version": version}`, with the version that the environment names, or `dev`.
pub fn handle_version(version: Option<String>) -> (r: String)
    ensures
        r@ == "{\"version\":"@ + json_string(
            match opt_string(version) {
                Some(v) => v,
                None => "dev"@,
            },
        ) + "}"@,
{
    let name = match version {
        Some(v) => v,
        None => "dev".to_owned(),
    };
    let mut body = "{\"version\":".to_owned();
    body.append(to_json_string(name.as_str()).as_str());
    body.append("}");
    body
}

/// The status of a sign of life.
pub fn handle_health() -> (r: Status)
    ensures
        r == Status::Success,
{
    Status::Success
}

/// The status of a path without a route.
pub fn handle_fallback() -> (r: Status)
    ensures
        r == Status::NotFound,
{
    Status::NotFound
}

/// The status of a request for the replication generation. Replicas that ask for it fall back
/// to the handshake of the replication protocol when there is no answer.
pub fn handle_info() -> (r: Status)
    ensures
        r == Status::NotFound,
{
    Status::NotFound
}

/// Goes on with a request for migrations once the configuration of its namespace is known,
/// which must be a shared schema.
pub fn migration_target(is_shared_schema: bool) -> (r: Result<(), Error>)
    ensures
        if is_shared_schema {
            r is Ok
        } else {
            r matches Err(e) && e@ == (ErrorKind::InvalidNamespace, ""@)
        },
{
    if is_shared_schema {
        Ok(())
    } else {
        Err(Error::new(ErrorKind::InvalidNamespace, ""))
    }
}

/// The details of a migration that was looked for.
pub fn migration_details<T>(details: Option<T>) -> (r: Result<T, Error>)
    ensures
        match details {
            Some(d) => r == Ok::<T, Error>(d),
            None => r matches Err(e) && e@ == (ErrorKind::MigrationJobNotFound, ""@),
        },
{
    match details {
        Some(d) => Ok(d),
        None => Err(Error::new(ErrorKind::MigrationJobNotFound, "")),
    }
}


// Laws.

/// The server for streams is made from the server's own URL, whether anything is served or not.
/// Where connections are accepted, the rest of the configuration goes where it belongs: the state
/// of the handlers, the services and the kicker are those of the configuration.
pub proof fn lemma_configure<A, N, H, K, P, S, F: FnOnce(Option<String>) -> H>(
    api: UserApi<A, N, K, P, S>,
    make_server: F,
    r: Configured<A, N, H, K, P, S>,
)
    requires
        call_ensures(UserApi::<A, N, K, P, S>::configure::<H, F>, (api, make_server), r),
    ensures
        r is Idle <==> api.http_acceptor is None,
        r matches Configured::Idle(server) ==> call_ensures(make_server, (api.self_url,), server),
        r matches Configured::Serving(s) ==> {
            &&& call_ensures(make_server, (api.self_url,), s.state.hrana_http_srv)
            &&& api.http_acceptor == Some(s.acceptor)
            &&& s.state.namespaces == api.namespaces
            &&& s.state.enable_console == api.enable_console
            &&& s.state.disable_default_namespace == api.disable_default_namespace
            &&& s.state.disable_namespaces == api.disable_namespaces
            &&& s.state.primary_url == api.primary_url
            &&& s.state.admin_api_key == api.admin_api_key
            &&& s.idle_shutdown_kicker == api.idle_shutdown_kicker
            &&& s.proxy_service == api.proxy_service
            &&& s.replication_service == api.replication_service
        },
{
}

/// There are two versions of the stream protocol, each with a name of its own.
pub proof fn lemma_hrana_version(version: &str, r: Result<HranaVersion, Error>)
    requires
        call_ensures(hrana_version, (version,), r),
    ensures
        r == Ok::<HranaVersion, Error>(HranaVersion::Hrana2) <==> version@ == "2"@,
        r == Ok::<HranaVersion, Error>(HranaVersion::Hrana3) <==> version@ == "3"@,
        r matches Err(e) ==> e.kind == ErrorKind::InvalidPath,
{
}

/// The console is there exactly if it is enabled. A server that answers is healthy, and what has
/// no route is not there.
pub proof fn lemma_plain_pages(
    enable_console: bool,
    console: Status,
    health: Status,
    fallback: Status,
    info: Status,
)
    requires
        call_ensures(show_console, (enable_console,), console),
        call_ensures(handle_health, (), health),
        call_ensures(handle_fallback, (), fallback),
        call_ensures(handle_info, (), info),
    ensures
        console.spec_code() == 200 <==> enable_console,
        console.spec_code() == 404 <==> !enable_console,
        health.spec_code() == 200,
        fallback.spec_code() == 404,
        info.spec_code() == 404,
{
}

/// The version page tells the version, and two pages are the same only if the versions are.
pub proof fn lemma_version_page(a: Option<String>, b: Option<String>, page: String, other: String)
    requires
        call_ensures(handle_version, (a,), page),
        call_ensures(handle_version, (b,), other),
    ensures
        ({
            let version = |v: Option<String>|
                match v {
                    Some(text) => text@,
                    None => "dev"@,
                };
            &&& page@ == "{\"version\":"@ + json_string(version(a)) + "}"@
            &&& page@ == other@ <==> version(a) == version(b)
        }),
{
    let va = match a {
        Some(text) => text@,
        None => "dev"@,
    };
    let vb = match b {
        Some(text) => text@,
        None => "dev"@,
    };
    let p = "{\"version\":"@;
    assert(page@.skip(p.len() as int) =~= json_string(va) + "}"@);
    assert(other@.skip(p.len() as int) =~= json_string(vb) + "}"@);
    if page@ == other@ {
        lemma_json_string_unambiguous(va, vb, "}"@, "}"@);
    }
}

/// Only a shared schema has migrations, and only a migration that was found has details.
pub proof fn lemma_migrations<T>(
    is_shared_schema: bool,
    target: Result<(), Error>,
    details: Option<T>,
    found: Result<T, Error>,
)
    requires
        call_ensures(migration_target, (is_shared_schema,), target),
        call_ensures(migration_details::<T>, (details,), found),
    ensures
        target is Ok <==> is_shared_schema,
        target matches Err(e) ==> e.kind == ErrorKind::InvalidNamespace,
        found is Ok <==> details is Some,
        found matches Ok(d) ==> details == Some(d),
        found matches Err(e) ==> e.kind == ErrorKind::MigrationJobNotFound,
{
}

} // verus!
