//! SQL that an admin runs against any database.

use vstd::prelude::*;

use crate::conn_cache::{
    after_failure, after_put, after_take, all_enabled, creations, failures, fresh_usage, keeps,
    lemma_always_single, lemma_created_once, run, take_outcome, CacheEvent, ConnCache, Connection,
    Take, Wake,
};
use crate::databases::{authorized, configured_key, is_shut_out, let_in, platform_refusal};
use crate::error::{Error, ErrorKind};
use crate::headers::header_text;
use crate::http::{error_response, ErrorReply, Status};
use crate::namespace::{reads_name, NamespaceName};
use crate::platform::MinitursoConfig;
use crate::queries::{
    have_parses, is_clean, is_parse_outcome, is_statement_in, lemma_accepted_batch,
    lemma_savepoint_outcome, lemma_statements_are_those_of_the_texts, parse_queries, Query,
    QueryObject, TxnStatus,
};
use crate::stmt::{Parsed, Statement, StmtKind};

verus! {

/// A request to run SQL against a namespace: either several statements or a single one.
#[derive(Debug)]
pub struct AdminQueryReq<P> {
    pub namespace: String,
    pub statements: Option<Vec<QueryObject<P>>>,
    pub sql: Option<String>,
}

/// A step of an admin query.
pub enum AdminQueryStep<P> {
    /// The request is refused.
    Refuse(ErrorReply),
    /// The statements are refused, as `refused_statements` answers.
    Invalid(Error),
    /// Load the namespace with full access and run the batch, or roll it back, on the connection
    /// that its cache gives.
    Run { namespace: NamespaceName, batch: Vec<Query<P>> },
}

/// The queries that a request asks for. A list of statements wins over a single one, which has
/// no parameters.
pub open spec fn requested<P>(body: AdminQueryReq<P>, no_params: P) -> Option<Seq<QueryObject<P>>> {
    match (body.statements, body.sql) {
        (Some(statements), _) => Some(statements@),
        (None, Some(sql)) => Some(seq![QueryObject { q: sql, params: no_params }]),
        (None, None) => None,
    }
}

/// Whether a step answers a request that carries the admin key, once the name of its namespace
/// was read.
pub open spec fn is_step_of<P, F: Fn(&str) -> Parsed, G: Fn(&Vec<Query<P>>) -> TxnStatus>(
    body: AdminQueryReq<P>,
    no_params: P,
    name: Option<NamespaceName>,
    parse: F,
    predict: G,
    step: AdminQueryStep<P>,
) -> bool {
    match name {
        None => step matches AdminQueryStep::Refuse(e) && e@ == (
            Status::BadRequest,
            "invalid namespace"@,
        ),
        Some(namespace) => match requested(body, no_params) {
            None => step matches AdminQueryStep::Refuse(e) && e@ == (
                Status::BadRequest,
                "provide either 'sql' or 'statements' array"@,
            ),
            Some(queries) => match step {
                AdminQueryStep::Refuse(_) => false,
                AdminQueryStep::Invalid(e) => is_parse_outcome(queries, parse, predict, Err(e)),
                AdminQueryStep::Run { namespace: target, batch } => target == namespace
                    && is_parse_outcome(queries, parse, predict, Ok(batch)),
            },
        },
    }
}

/// Starts an admin query. The namespace is taken from the request, and the admin key opens
/// every one. `read_name` reads the name of a namespace, `parse` parses a text, and `predict`
/// tells in which state a batch that starts outside a transaction will end.
pub fn admin_query<
    P,
    N: Fn(&str) -> Option<NamespaceName>,
    F: Fn(&str) -> Parsed,
    G: Fn(&Vec<Query<P>>) -> TxnStatus,
>(
    platform: Option<&MinitursoConfig>,
    headers: &hyper::HeaderMap<hyper::header::HeaderValue>,
    body: AdminQueryReq<P>,
    no_params: P,
    read_name: N,
    parse: F,
    predict: G,
) -> (r: AdminQueryStep<P>)
    requires
        forall|text: &str| call_requires(read_name, (text,)),
        forall|text: &str| call_requires(parse, (text,)),
        forall|batch: &Vec<Query<P>>| call_requires(predict, (batch,)),
    ensures
        match platform_refusal(configured_key(platform), header_text(*headers, "authorization"@)) {
            Some(error) => r matches AdminQueryStep::Refuse(e) && e@ == error,
            None => exists|name: Option<NamespaceName>|
                reads_name(read_name, body.namespace@, name) && #[trigger] is_step_of(
                    body,
                    no_params,
                    name,
                    parse,
                    predict,
                    r,
                ),
        },
{
    if let Err(e) = authorized(platform, headers) {
        return AdminQueryStep::Refuse(e);
    }
    let ghost request = body;
    let name = read_name(body.namespace.as_str());
    let ghost read = name;
    assert(reads_name(read_name, request.namespace@, read));
    let step = match name {
        None => AdminQueryStep::Refuse(error_response(Status::BadRequest, "invalid namespace")),
        Some(namespace) => {
            let statements = match (body.statements, body.sql) {
                (Some(statements), _) => Some(statements),
                (None, Some(sql)) => {
                    let mut single: Vec<QueryObject<P>> = Vec::new();
                    single.push(QueryObject { q: sql, params: no_params });
                    Some(single)
                },
                (None, None) => None,
            };
            match statements {
                None => AdminQueryStep::Refuse(
                    error_response(
                        Status::BadRequest,
                        "provide either 'sql' or 'statements' array",
                    ),
                ),
                Some(queries) => match parse_queries(queries, parse, predict) {
                    Err(e) => AdminQueryStep::Invalid(e),
                    Ok(batch) => AdminQueryStep::Run { namespace, batch },
                },
            }
        },
    };
    assert(is_step_of(request, no_params, read, parse, predict, step));
    step
}

/// The answer to statements that are refused, with the text of the error.
pub fn refused_statements(text: &str) -> (r: ErrorReply)
    ensures
        r@ == (Status::BadRequest, text@),
{
    error_response(Status::BadRequest, text)
}

/// The answer when the namespace cannot be had, with the text of the error.
pub fn missing_namespace(text: &str) -> (r: ErrorReply)
    ensures
        r@ == (Status::NotFound, text@),
{
    error_response(Status::NotFound, text)
}

// The connection of a query.
//
// Queries on one namespace share the connection in its cache. The caller runs each function
// under the lock of the cache, and wakes the waiting requests as it is told.

/// A step of a query on its way to a connection.
pub enum QueryStep<C, P, Q> {
    /// The query is refused.
    Refuse(ErrorReply),
    /// Wait until the connection is released, then ask again.
    Wait { batch: Vec<Query<Q>> },
    /// Create the connection.
    Create { batch: Vec<Query<Q>> },
    /// Run the batch on the connection, or roll it back.
    Execute { conn: Connection<C, P>, batch: Vec<Query<Q>> },
}

/// Asks the cache of a namespace for the connection. A closed cache belongs to a namespace that
/// is gone, as the text `gone` says.
pub fn query_connect<C, P, Q>(
    cache: &mut ConnCache<C, P>,
    batch: Vec<Query<Q>>,
    gone: &str,
) -> (r: QueryStep<C, P, Q>)
    ensures
        final(cache)@ == after_take(old(cache)@),
        match take_outcome(old(cache)@) {
            Take::Closed => r matches QueryStep::Refuse(e) && e@ == (Status::NotFound, gone@),
            Take::Ready(conn) => r == (QueryStep::Execute { conn, batch }),
            Take::Create => r == (QueryStep::<C, P, Q>::Create { batch }),
            Take::Wait => r == (QueryStep::<C, P, Q>::Wait { batch }),
        },
{
    match cache.take() {
        Take::Closed => QueryStep::Refuse(missing_namespace(gone)),
        Take::Ready(conn) => QueryStep::Execute { conn, batch },
        Take::Create => QueryStep::Create { batch },
        Take::Wait => QueryStep::Wait { batch },
    }
}

/// Goes on once the connection was created, or could not be. In the second case the next query
/// may create it, and all waiting ones ask again.
pub fn query_created<C, P, Q>(
    cache: &mut ConnCache<C, P>,
    batch: Vec<Query<Q>>,
    made: Result<Connection<C, P>, String>,
) -> (r: (QueryStep<C, P, Q>, Wake))
    ensures
        match made {
            Ok(conn) => {
                &&& r.0 == (QueryStep::Execute { conn, batch })
                &&& r.1 == Wake::Nobody
                &&& final(cache)@ == old(cache)@
            },
            Err(message) => {
                &&& r.0 matches QueryStep::Refuse(e) && e@ == (
                    Status::InternalServerError,
                    message@,
                )
                &&& r.1 == Wake::All
                &&& final(cache)@ == after_failure(old(cache)@)
            },
        },
{
    match made {
        Ok(conn) => (QueryStep::Execute { conn, batch }, Wake::Nobody),
        Err(message) => {
            let (_, wake) = cache.created(None);
            let refusal = error_response(Status::InternalServerError, message.as_str());
            (QueryStep::Refuse(refusal), wake)
        },
    }
}

/// Finishes once the batch ran, or failed: the connection goes back to the cache either way.
pub fn query_finished<C, P>(
    cache: &mut ConnCache<C, P>,
    conn: Connection<C, P>,
    outcome: Result<Vec<u8>, String>,
) -> (r: (Result<Vec<u8>, ErrorReply>, Wake))
    ensures
        final(cache)@ == after_put(old(cache)@, conn),
        r.1 == if keeps(old(cache)@) {
            Wake::One
        } else {
            Wake::Nobody
        },
        match outcome {
            Ok(body) => r.0 == Ok::<Vec<u8>, ErrorReply>(body),
            Err(message) => r.0 matches Err(e) && e@ == (Status::InternalServerError, message@),
        },
{
    let wake = cache.put(conn);
    let reply = match outcome {
        Ok(body) => Ok(body),
        Err(message) => Err(error_response(Status::InternalServerError, message.as_str())),
    };
    (reply, wake)
}

/// What queries do to the cache of their namespace while it is not evicted and no creation
/// fails: each takes the connection, some wait and take again, and each puts it back.
pub open spec fn by_queries<C, P>(events: Seq<CacheEvent<C, P>>) -> bool {
    forall|i: int|
        0 <= i < events.len() ==> (#[trigger] events[i]) is Take || events[i] is Put
}

proof fn lemma_queries_keep_open<C, P>(events: Seq<CacheEvent<C, P>>)
    requires
        by_queries(events),
    ensures
        !run(fresh_usage::<C, P>(), events).cache.closed,
        failures(events) == 0,
    decreases events.len(),
{
    if events.len() > 0 {
        assert(events.last() == events[events.len() - 1]);
        assert forall|i: int| 0 <= i < events.drop_last().len() implies (
        #[trigger] events.drop_last()[i]) is Take || events.drop_last()[i] is Put by {
            assert(events.drop_last()[i] == events[i]);
        }
        lemma_queries_keep_open(events.drop_last());
    }
}

/// Queries on one namespace share a single connection. Over all of them, whether they come one
/// after the other or at once, it is created at most once: the first query creates it, and every
/// other one takes it out of the cache or waits for it.
pub proof fn lemma_queries_share_a_connection<C, P>(events: Seq<CacheEvent<C, P>>)
    requires
        by_queries(events),
        all_enabled(fresh_usage(), events),
    ensures
        creations(fresh_usage(), events) <= 1,
        match take_outcome(run(fresh_usage::<C, P>(), events).cache) {
            Take::Closed => false,
            Take::Create => creations(fresh_usage(), events) == 0,
            Take::Ready(_) => creations(fresh_usage(), events) == 1,
            Take::Wait => creations(fresh_usage(), events) == 1,
        },
{
    lemma_queries_keep_open(events);
    lemma_created_once(events);
    lemma_always_single(events);
}


/// Whether a text is always read as the name of a namespace, or never.
pub open spec fn always_reads<N: Fn(&str) -> Option<NamespaceName>>(
    read_name: N,
    text: Seq<char>,
    some: bool,
) -> bool {
    forall|o: Option<NamespaceName>| #[trigger] reads_name(read_name, text, o) ==> (o is Some <==> some)
}

/// An admin query runs against the namespace that the request names, with the admin key only. It
/// runs the statements of the list if there is one, and else the single statement, without
/// parameters. None of them opens or releases a savepoint.
pub proof fn lemma_admin_query_runs<
    P,
    N: Fn(&str) -> Option<NamespaceName>,
    F: Fn(&str) -> Parsed,
    G: Fn(&Vec<Query<P>>) -> TxnStatus,
>(
    platform: Option<&MinitursoConfig>,
    headers: &hyper::HeaderMap<hyper::header::HeaderValue>,
    body: AdminQueryReq<P>,
    no_params: P,
    read_name: N,
    parse: F,
    predict: G,
    namespace: NamespaceName,
    batch: Vec<Query<P>>,
    i: int,
)
    requires
        call_ensures(
            admin_query::<P, N, F, G>,
            (platform, headers, body, no_params, read_name, parse, predict),
            AdminQueryStep::Run { namespace, batch },
        ),
        0 <= i < batch@.len(),
    ensures
        let_in(platform, *headers),
        reads_name(read_name, body.namespace@, Some(namespace)),
        batch@[i].stmt.kind == StmtKind::Other,
        body.statements matches Some(list) ==> batch@.len() == list@.len() && batch@[i].params
            == list@[i].params && is_statement_in(parse, list@[i].q@, batch@[i].stmt),
        body.statements is None ==> batch@.len() == 1 && batch@[i].params == no_params && (
        body.sql matches Some(sql) && is_statement_in(parse, sql@, batch@[i].stmt)),
        exists|predicted: TxnStatus| #[trigger]
            call_ensures(predict, (&batch,), predicted) && predicted != TxnStatus::Txn,
{
    let name = choose|name: Option<NamespaceName>|
        reads_name(read_name, body.namespace@, name) && #[trigger] is_step_of(
            body,
            no_params,
            name,
            parse,
            predict,
            AdminQueryStep::Run { namespace, batch },
        );
    assert(name == Some(namespace));
    let queries = requested(body, no_params)->0;
    assert(is_parse_outcome(queries, parse, predict, Ok(batch)));
    lemma_statements_are_those_of_the_texts(queries, parse, predict, batch, i);
    lemma_accepted_batch(queries, parse, predict, batch);
}

/// An admin query with a savepoint among its statements, at any place, is not run.
pub proof fn lemma_admin_query_without_savepoints<
    P,
    N: Fn(&str) -> Option<NamespaceName>,
    F: Fn(&str) -> Parsed,
    G: Fn(&Vec<Query<P>>) -> TxnStatus,
>(
    platform: Option<&MinitursoConfig>,
    headers: &hyper::HeaderMap<hyper::header::HeaderValue>,
    body: AdminQueryReq<P>,
    no_params: P,
    read_name: N,
    parse: F,
    predict: G,
    list: Vec<QueryObject<P>>,
    parsed: Seq<Parsed>,
    j: int,
    stmt: Statement,
    r: AdminQueryStep<P>,
)
    requires
        call_ensures(
            admin_query::<P, N, F, G>,
            (platform, headers, body, no_params, read_name, parse, predict),
            r,
        ),
        let_in(platform, *headers),
        always_reads(read_name, body.namespace@, true),
        body.statements == Some(list),
        have_parses(list@, parse, parsed),
        forall|i: int| 0 <= i < parsed.len() ==> is_clean(#[trigger] parsed[i]),
        0 <= j < parsed.len(),
        parsed[j].first == Some(Ok::<Statement, String>(stmt)),
        stmt.kind == StmtKind::Savepoint || stmt.kind == StmtKind::Release,
    ensures
        r matches AdminQueryStep::Invalid(e) && e.kind == ErrorKind::QueryError,
{
    let outcome: Result<Vec<Query<P>>, Error> = match r {
        AdminQueryStep::Invalid(e) => Err(e),
        AdminQueryStep::Run { namespace, batch } => Ok(batch),
        AdminQueryStep::Refuse(_) => arbitrary(),
    };
    assert(r !is Refuse);
    assert(is_parse_outcome(list@, parse, predict, outcome));
    lemma_savepoint_outcome(list@, parse, predict, parsed, j, stmt, outcome);
}

/// An admin query is refused at once only if it is not let in, if its namespace is no name, or if
/// it brings no statement.
pub proof fn lemma_admin_query_is_refused<
    P,
    N: Fn(&str) -> Option<NamespaceName>,
    F: Fn(&str) -> Parsed,
    G: Fn(&Vec<Query<P>>) -> TxnStatus,
>(
    platform: Option<&MinitursoConfig>,
    headers: &hyper::HeaderMap<hyper::header::HeaderValue>,
    body: AdminQueryReq<P>,
    no_params: P,
    read_name: N,
    parse: F,
    predict: G,
    r: AdminQueryStep<P>,
)
    requires
        call_ensures(
            admin_query::<P, N, F, G>,
            (platform, headers, body, no_params, read_name, parse, predict),
            r,
        ),
    ensures
        !let_in(platform, *headers) ==> (r matches AdminQueryStep::Refuse(e) && is_shut_out(
            platform,
            e,
        )),
        let_in(platform, *headers) && always_reads(read_name, body.namespace@, false) ==> (
        r matches AdminQueryStep::Refuse(e) && e.status.spec_code() == 400 && e.message@
            == "invalid namespace"@),
        let_in(platform, *headers) && always_reads(read_name, body.namespace@, true)
            && body.statements is None && body.sql is None ==> (r matches AdminQueryStep::Refuse(e)
            && e.status.spec_code() == 400 && e.message@
            == "provide either 'sql' or 'statements' array"@),
        let_in(platform, *headers) && always_reads(read_name, body.namespace@, true) && (
        body.statements is Some || body.sql is Some) ==> r !is Refuse,
{
}

/// Statements that are refused are answered with `400`, a namespace that cannot be had with `404`,
/// each with the text of the error.
pub proof fn lemma_query_refusals(text: &str, statements: ErrorReply, namespace: ErrorReply)
    requires
        call_ensures(refused_statements, (text,), statements),
        call_ensures(missing_namespace, (text,), namespace),
    ensures
        statements.status.spec_code() == 400,
        namespace.status.spec_code() == 404,
        statements.message@ == text@,
        namespace.message@ == text@,
{
}

/// A query that has finished, well or not, leaves its connection to the next one, which runs its
/// own batch on it. The outcome is answered as it is: the body, or `500` with the failure.
pub proof fn lemma_finished_query_hands_on<C, P, Q>(
    finishing: &mut ConnCache<C, P>,
    conn: Connection<C, P>,
    outcome: Result<Vec<u8>, String>,
    r: (Result<Vec<u8>, ErrorReply>, Wake),
    next: &mut ConnCache<C, P>,
    batch: Vec<Query<Q>>,
    gone: &str,
    step: QueryStep<C, P, Q>,
)
    requires
        !old(finishing)@.closed,
        old(finishing)@.idle is None,
        call_ensures(query_finished::<C, P>, (finishing, conn, outcome), r),
        *old(next) == *final(finishing),
        call_ensures(query_connect::<C, P, Q>, (next, batch, gone), step),
    ensures
        r.1 == Wake::One,
        outcome matches Ok(bytes) ==> (r.0 matches Ok(b) && b == bytes),
        outcome matches Err(m) ==> (r.0 matches Err(e) && e.status.spec_code() == 500
            && e.message@ == m@),
        step matches QueryStep::Execute { conn: c, batch: b } && c.handle == conn.handle
            && c.permit is None && b == batch,
{
}

/// A query that cannot create the connection is answered with `500` and the failure, and leaves
/// the creation to the next one. A query that can runs its batch.
pub proof fn lemma_failed_query_leaves_creation<C, P, Q>(
    failing: &mut ConnCache<C, P>,
    batch: Vec<Query<Q>>,
    made: Result<Connection<C, P>, String>,
    r: (QueryStep<C, P, Q>, Wake),
    next: &mut ConnCache<C, P>,
    other: Vec<Query<Q>>,
    gone: &str,
    step: QueryStep<C, P, Q>,
)
    requires
        !old(failing)@.closed,
        old(failing)@.idle is None,
        old(failing)@.created,
        call_ensures(query_created::<C, P, Q>, (failing, batch, made), r),
        *old(next) == *final(failing),
        call_ensures(query_connect::<C, P, Q>, (next, other, gone), step),
    ensures
        match made {
            Ok(conn) => {
                &&& r.0 matches QueryStep::Execute { conn: c, batch: b } && c == conn && b == batch
                &&& r.1 == Wake::Nobody
                &&& step matches QueryStep::Wait { batch: b } && b == other
            },
            Err(m) => {
                &&& r.0 matches QueryStep::Refuse(e) && e.status.spec_code() == 500 && e.message@
                    == m@
                &&& r.1 == Wake::All
                &&& step matches QueryStep::Create { batch: b } && b == other
            },
        },
{
}

/// On a namespace that is gone every query is answered with `404` and the text for it.
pub proof fn lemma_gone_namespace<C, P, Q>(
    closing: &mut ConnCache<C, P>,
    wake: Wake,
    cache: &mut ConnCache<C, P>,
    batch: Vec<Query<Q>>,
    gone: &str,
    step: QueryStep<C, P, Q>,
)
    requires
        call_ensures(ConnCache::<C, P>::close, (closing,), wake),
        *old(cache) == *final(closing),
        call_ensures(query_connect::<C, P, Q>, (cache, batch, gone), step),
    ensures
        step matches QueryStep::Refuse(e) && e.status.spec_code() == 404 && e.message@ == gone@,
{
}

} // verus!
