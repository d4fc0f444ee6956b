//! Batches of SQL statements that arrive over HTTP.

use vstd::prelude::*;

use crate::error::{Error, ErrorKind};
use crate::stmt::{Parsed, Statement, StmtKind};
use crate::stmt_cache::parses_to;

verus! {

/// A query as it arrives: its SQL text and its parameters.
#[derive(Debug)]
pub struct QueryObject<P> {
    pub q: String,
    pub params: P,
}

/// A query that can be executed.
#[derive(Debug)]
pub struct Query<P> {
    pub stmt: Statement,
    pub params: P,
    pub want_rows: bool,
}

/// The state of a connection with respect to transactions.
#[derive(Clone, Copy, Debug, PartialEq, Eq, Structural)]
pub enum TxnStatus {
    /// Outside a transaction.
    Init,
    /// Inside a transaction.
    Txn,
    /// No statement sequence leads here.
    Invalid,
}

/// Why the text of a query is refused, if it is: it does not parse, or it holds more than one
/// statement.
pub open spec fn text_error(parsed: Parsed) -> Option<(ErrorKind, Seq<char>)> {
    match parsed.first {
        Some(Err(source)) => Some((ErrorKind::Syntax, source@)),
        _ => if parsed.more {
            Some(
                (
                    ErrorKind::FailedToParse,
                    "found more than one command in a single statement string. It is allowed to issue only one command per string."@,
                ),
            )
        } else {
            None
        },
    }
}

/// The error of the first text that is refused.
pub open spec fn first_text_error(parsed: Seq<Parsed>) -> Option<(ErrorKind, Seq<char>)>
    decreases parsed.len(),
{
    if parsed.len() == 0 {
        None
    } else {
        match text_error(parsed[0]) {
            Some(e) => Some(e),
            None => first_text_error(parsed.drop_first()),
        }
    }
}

/// Whether `stmt` is the statement of a text that is not refused: its only one, or the empty
/// one.
pub open spec fn is_statement_of(parsed: Parsed, stmt: Statement) -> bool {
    match parsed.first {
        Some(Ok(s)) => stmt == s,
        _ => stmt.stmt@ == Seq::<char>::empty() && stmt.kind == StmtKind::Other,
    }
}

/// Whether `batch` holds the queries with the given parses and parameters, in order.
pub open spec fn is_batch_of<P>(
    queries: Seq<QueryObject<P>>,
    parsed: Seq<Parsed>,
    batch: Seq<Query<P>>,
) -> bool {
    &&& batch.len() == queries.len()
    &&& forall|i: int| #![trigger batch[i]]
        0 <= i < batch.len() ==> {
            &&& is_statement_of(parsed[i], batch[i].stmt)
            &&& batch[i].params == queries[i].params
            &&& batch[i].want_rows
        }
}

/// Whether a batch opens or releases a savepoint.
pub open spec fn uses_savepoints<P>(batch: Seq<Query<P>>) -> bool {
    exists|i: int|
        0 <= i < batch.len() && ((#[trigger] batch[i]).stmt.kind == StmtKind::Savepoint
            || batch[i].stmt.kind == StmtKind::Release)
}

/// Why a batch that ends in the state `predicted` is refused, if it is. The state of a
/// transaction with savepoints is too hard to predict, so they are forbidden; so is a batch
/// that leaves a transaction open. One that no prediction fits is left to the database.
pub open spec fn batch_error<P>(batch: Seq<Query<P>>, predicted: TxnStatus) -> Option<
    (ErrorKind, Seq<char>),
> {
    if uses_savepoints(batch) {
        Some(
            (
                ErrorKind::QueryError,
                "savepoints are not supported in HTTP API, use hrana protocol instead"@,
            ),
        )
    } else if predicted == TxnStatus::Txn {
        Some((ErrorKind::QueryError, "interactive transaction not allowed in HTTP queries"@))
    } else {
        None
    }
}

proof fn lemma_first_text_error_at(parsed: Seq<Parsed>, i: int)
    requires
        0 <= i < parsed.len(),
        forall|k: int| 0 <= k < i ==> text_error(#[trigger] parsed[k]) is None,
        text_error(parsed[i]) is Some,
    ensures
        first_text_error(parsed) == text_error(parsed[i]),
    decreases i,
{
    if i > 0 {
        assert(text_error(parsed[0]) is None);
        let rest = parsed.drop_first();
        assert forall|k: int| 0 <= k < i - 1 implies text_error(#[trigger] rest[k]) is None by {
            assert(rest[k] == parsed[k + 1]);
        }
        lemma_first_text_error_at(rest, i - 1);
    }
}

proof fn lemma_no_text_error(parsed: Seq<Parsed>)
    requires
        forall|k: int| 0 <= k < parsed.len() ==> text_error(#[trigger] parsed[k]) is None,
    ensures
        first_text_error(parsed) is None,
    decreases parsed.len(),
{
    if parsed.len() > 0 {
        assert(text_error(parsed[0]) is None);
        let rest = parsed.drop_first();
        assert forall|k: int| 0 <= k < rest.len() implies text_error(#[trigger] rest[k]) is None by {
            assert(rest[k] == parsed[k + 1]);
        }
        lemma_no_text_error(rest);
    }
}

/// Takes the statement out of the text of one query.
pub fn query_statement(parsed: &Parsed) -> (r: Result<Statement, Error>)
    ensures
        match r {
            Ok(stmt) => text_error(*parsed) is None && is_statement_of(*parsed, stmt),
            Err(e) => text_error(*parsed) == Some(e@),
        },
{
    let stmt = match &parsed.first {
        Some(Ok(stmt)) => stmt.clone(),
        Some(Err(source)) => return Err(Error::new(ErrorKind::Syntax, source.as_str())),
        None => Statement::default(),
    };
    if parsed.more {
        return Err(
            Error::new(
                ErrorKind::FailedToParse,
                "found more than one command in a single statement string. It is allowed to issue only one command per string.",
            ),
        );
    }
    Ok(stmt)
}

/// Checks a batch whose statements are predicted to end in the state `predicted`.
pub fn check_batch<P>(batch: Vec<Query<P>>, predicted: TxnStatus) -> (r: Result<Vec<Query<P>>, Error>)
    ensures
        match r {
            Ok(b) => batch_error(batch@, predicted) is None && b == batch,
            Err(e) => batch_error(batch@, predicted) == Some(e@),
        },
{
    if has_savepoints(&batch) {
        return Err(
            Error::new(
                ErrorKind::QueryError,
                "savepoints are not supported in HTTP API, use hrana protocol instead",
            ),
        );
    }
    match predicted {
        TxnStatus::Txn => Err(
            Error::new(
                ErrorKind::QueryError,
                "interactive transaction not allowed in HTTP queries",
            ),
        ),
        TxnStatus::Init => Ok(batch),
        TxnStatus::Invalid => Ok(batch),
    }
}

fn has_savepoints<P>(batch: &Vec<Query<P>>) -> (r: bool)
    ensures
        r == uses_savepoints(batch@),
{
    let mut i: usize = 0;
    while i < batch.len()
        invariant
            i <= batch@.len(),
            forall|k: int|
                0 <= k < i ==> (#[trigger] batch@[k]).stmt.kind != StmtKind::Savepoint
                    && batch@[k].stmt.kind != StmtKind::Release,
        decreases batch@.len() - i,
    {
        if batch[i].stmt.kind == StmtKind::Savepoint || batch[i].stmt.kind == StmtKind::Release {
            return true;
        }
        i = i + 1;
    }
    false
}

/// The outcome of a batch of queries with the given parses.
pub open spec fn is_batch_outcome<P, G: Fn(&Vec<Query<P>>) -> TxnStatus>(
    queries: Seq<QueryObject<P>>,
    parsed: Seq<Parsed>,
    predict: G,
    r: Result<Vec<Query<P>>, Error>,
) -> bool {
    match first_text_error(parsed) {
        Some(error) => r matches Err(e) && e@ == error,
        None => exists|batch: Vec<Query<P>>, predicted: TxnStatus|
            {
                &&& is_batch_of(queries, parsed, batch@)
                &&& #[trigger] call_ensures(predict, (&batch,), predicted)
                &&& match batch_error(batch@, predicted) {
                    Some(error) => r matches Err(e) && e@ == error,
                    None => r == Ok::<Vec<Query<P>>, Error>(batch),
                }
            },
    }
}

/// The outcome of a batch of queries. The texts are parsed in order, up to the first that is
/// refused.
pub open spec fn is_parse_outcome<P, F: Fn(&str) -> Parsed, G: Fn(&Vec<Query<P>>) -> TxnStatus>(
    queries: Seq<QueryObject<P>>,
    parse: F,
    predict: G,
    r: Result<Vec<Query<P>>, Error>,
) -> bool {
    exists|parsed: Seq<Parsed>|
        {
            &&& parsed.len() <= queries.len()
            &&& parsed.len() < queries.len() ==> first_text_error(parsed) is Some
            &&& forall|i: int|
                0 <= i < parsed.len() ==> parses_to(parse, queries[i].q@, #[trigger] parsed[i])
            &&& #[trigger] is_batch_outcome(queries, parsed, predict, r)
        }
}

/// Turns queries that arrive over HTTP into a batch. `parse` parses a text, and `predict`
/// tells in which state a batch that starts outside a transaction will end.
pub fn parse_queries<P, F: Fn(&str) -> Parsed, G: Fn(&Vec<Query<P>>) -> TxnStatus>(
    queries: Vec<QueryObject<P>>,
    parse: F,
    predict: G,
) -> (r: Result<Vec<Query<P>>, Error>)
    requires
        forall|text: &str| call_requires(parse, (text,)),
        forall|batch: &Vec<Query<P>>| call_requires(predict, (batch,)),
    ensures
        is_parse_outcome(queries@, parse, predict, r),
{
    let mut batch: Vec<Query<P>> = Vec::new();
    let ghost mut parses: Seq<Parsed> = Seq::empty();
    let ghost all = queries@;
    for query in it: queries
        invariant
            it.seq() == all,
            parses.len() == it.index(),
            batch@.len() == it.index(),
            forall|text: &str| call_requires(parse, (text,)),
            forall|i: int|
                0 <= i < parses.len() ==> parses_to(parse, all[i].q@, #[trigger] parses[i]),
            forall|i: int| 0 <= i < parses.len() ==> text_error(#[trigger] parses[i]) is None,
            forall|i: int| #![trigger batch@[i]]
                0 <= i < batch@.len() ==> {
                    &&& is_statement_of(parses[i], batch@[i].stmt)
                    &&& batch@[i].params == all[i].params
                    &&& batch@[i].want_rows
                },
    {
        let parsed = parse(query.q.as_str());
        assert(parses_to(parse, query.q@, parsed));
        let ghost before = parses;
        proof {
            parses = parses.push(parsed);
        }
        match query_statement(&parsed) {
            Ok(stmt) => {
                batch.push(Query { stmt, params: query.params, want_rows: true });
            },
            Err(e) => {
                proof {
                    lemma_first_text_error_at(parses, before.len() as int);
                }
                assert(is_batch_outcome(all, parses, predict, Err(e)));
                return Err(e);
            },
        }
    }
    proof {
        lemma_no_text_error(parses);
    }
    let predicted = predict(&batch);
    let ghost collected = batch;
    let r = check_batch(batch, predicted);
    assert(is_batch_of(all, parses, collected@));
    assert(call_ensures(predict, (&collected,), predicted));
    assert(is_batch_outcome(all, parses, predict, r));
    r
}

/// A batch that is accepted holds one query for each text, in order and with its parameters. It
/// uses no savepoints, and is predicted not to leave a transaction open.
pub proof fn lemma_accepted_batch<P, F: Fn(&str) -> Parsed, G: Fn(&Vec<Query<P>>) -> TxnStatus>(
    queries: Seq<QueryObject<P>>,
    parse: F,
    predict: G,
    batch: Vec<Query<P>>,
)
    requires
        is_parse_outcome(queries, parse, predict, Ok(batch)),
    ensures
        batch@.len() == queries.len(),
        forall|i: int| #![trigger batch@[i]]
            0 <= i < batch@.len() ==> batch@[i].params == queries[i].params,
        !uses_savepoints(batch@),
        exists|predicted: TxnStatus| #[trigger]
            call_ensures(predict, (&batch,), predicted) && predicted != TxnStatus::Txn,
{
}


/// Whether a text can be parsed in one way only.
pub open spec fn parses_only_to<F: Fn(&str) -> Parsed>(parse: F, sql: Seq<char>, parsed: Parsed) -> bool {
    forall|p: Parsed| #[trigger] parses_to(parse, sql, p) ==> p == parsed
}

/// Whether a text holds at most one statement and no error.
pub open spec fn is_clean(parsed: Parsed) -> bool {
    !parsed.more && !(parsed.first matches Some(Err(_)))
}

/// Whether queries have these parses and no others.
pub open spec fn have_parses<P, F: Fn(&str) -> Parsed>(
    queries: Seq<QueryObject<P>>,
    parse: F,
    parsed: Seq<Parsed>,
) -> bool {
    &&& parsed.len() == queries.len()
    &&& forall|i: int| #![trigger parsed[i]]
        0 <= i < parsed.len() ==> parses_only_to(parse, queries[i].q@, parsed[i])
}

proof fn lemma_each_without_error(parsed: Seq<Parsed>, i: int)
    requires
        first_text_error(parsed) is None,
        0 <= i < parsed.len(),
    ensures
        text_error(parsed[i]) is None,
    decreases parsed.len(),
{
    if i > 0 {
        let rest = parsed.drop_first();
        lemma_each_without_error(rest, i - 1);
        assert(rest[i - 1] == parsed[i]);
    }
}

/// Of a batch that is accepted, no statement at any place opens or releases a savepoint.
pub proof fn lemma_no_savepoint_is_accepted<
    P,
    F: Fn(&str) -> Parsed,
    G: Fn(&Vec<Query<P>>) -> TxnStatus,
>(queries: Vec<QueryObject<P>>, parse: F, predict: G, batch: Vec<Query<P>>, i: int)
    requires
        call_ensures(parse_queries::<P, F, G>, (queries, parse, predict), Ok(batch)),
        0 <= i < batch@.len(),
    ensures
        batch@[i].stmt.kind != StmtKind::Savepoint,
        batch@[i].stmt.kind != StmtKind::Release,
{
    assert(is_parse_outcome(queries@, parse, predict, Ok(batch)));
}

/// Whether `stmt` is the statement of a text: the only one that is parsed from it, or the empty one
/// if there is none.
pub open spec fn is_statement_in<F: Fn(&str) -> Parsed>(
    parse: F,
    sql: Seq<char>,
    stmt: Statement,
) -> bool {
    exists|p: Parsed|
        {
            &&& #[trigger] parses_to(parse, sql, p)
            &&& is_clean(p)
            &&& p.first matches Some(Ok(s)) ==> stmt == s
            &&& p.first is None ==> stmt.stmt@.len() == 0
        }
}

/// The statements of a batch are those of its texts, over the outcome of a parse.
pub proof fn lemma_statements_are_those_of_the_texts<
    P,
    F: Fn(&str) -> Parsed,
    G: Fn(&Vec<Query<P>>) -> TxnStatus,
>(queries: Seq<QueryObject<P>>, parse: F, predict: G, batch: Vec<Query<P>>, i: int)
    requires
        is_parse_outcome(queries, parse, predict, Ok(batch)),
        0 <= i < batch@.len() || 0 <= i < queries.len(),
    ensures
        batch@.len() == queries.len(),
        batch@[i].params == queries[i].params,
        batch@[i].want_rows,
        is_statement_in(parse, queries[i].q@, batch@[i].stmt),
{
    let parsed = choose|parsed: Seq<Parsed>|
        {
            &&& parsed.len() <= queries.len()
            &&& parsed.len() < queries.len() ==> first_text_error(parsed) is Some
            &&& forall|i: int|
                0 <= i < parsed.len() ==> parses_to(parse, queries[i].q@, #[trigger] parsed[i])
            &&& #[trigger] is_batch_outcome(queries, parsed, predict, Ok(batch))
        };
    assert(first_text_error(parsed) is None);
    assert(is_batch_of(queries, parsed, batch@));
    lemma_each_without_error(parsed, i);
    let p = parsed[i];
    assert(parses_to(parse, queries[i].q@, p));
    assert(is_statement_of(p, batch@[i].stmt));
}

/// A batch that is accepted holds the statements of its texts, one for each text and in their
/// order, with the parameters that came with the text. It wants rows from each of them. A text
/// without a statement stands for the empty one.
pub proof fn lemma_accepted_batch_is_what_was_sent<
    P,
    F: Fn(&str) -> Parsed,
    G: Fn(&Vec<Query<P>>) -> TxnStatus,
>(queries: Vec<QueryObject<P>>, parse: F, predict: G, batch: Vec<Query<P>>, i: int)
    requires
        call_ensures(parse_queries::<P, F, G>, (queries, parse, predict), Ok(batch)),
        0 <= i < batch@.len() || 0 <= i < queries@.len(),
    ensures
        batch@.len() == queries@.len(),
        batch@[i].params == queries@[i].params,
        batch@[i].want_rows,
        is_statement_in(parse, queries@[i].q@, batch@[i].stmt),
        exists|predicted: TxnStatus| #[trigger]
            call_ensures(predict, (&batch,), predicted) && predicted != TxnStatus::Txn,
{
    lemma_statements_are_those_of_the_texts(queries@, parse, predict, batch, i);
    lemma_accepted_batch(queries@, parse, predict, batch);
}

proof fn lemma_outcome_of_clean<P, F: Fn(&str) -> Parsed, G: Fn(&Vec<Query<P>>) -> TxnStatus>(
    queries: Seq<QueryObject<P>>,
    parse: F,
    predict: G,
    parsed: Seq<Parsed>,
    r: Result<Vec<Query<P>>, Error>,
) -> (found: (Vec<Query<P>>, TxnStatus))
    requires
        is_parse_outcome(queries, parse, predict, r),
        have_parses(queries, parse, parsed),
        forall|i: int| 0 <= i < parsed.len() ==> is_clean(#[trigger] parsed[i]),
    ensures
        is_batch_of(queries, parsed, found.0@),
        call_ensures(predict, (&found.0,), found.1),
        match batch_error(found.0@, found.1) {
            Some(error) => r matches Err(e) && e@ == error,
            None => r == Ok::<Vec<Query<P>>, Error>(found.0),
        },
{
    let used = choose|used: Seq<Parsed>|
        {
            &&& used.len() <= queries.len()
            &&& used.len() < queries.len() ==> first_text_error(used) is Some
            &&& forall|i: int|
                0 <= i < used.len() ==> parses_to(parse, queries[i].q@, #[trigger] used[i])
            &&& #[trigger] is_batch_outcome(queries, used, predict, r)
        };
    assert forall|i: int| 0 <= i < used.len() implies text_error(#[trigger] used[i]) is None by {
        assert(parses_to(parse, queries[i].q@, used[i]));
        assert(used[i] == parsed[i]);
    }
    lemma_no_text_error(used);
    assert forall|i: int| 0 <= i < used.len() implies used[i] == parsed[i] by {
        assert(parses_to(parse, queries[i].q@, used[i]));
        assert(parses_only_to(parse, queries[i].q@, parsed[i]));
    }
    assert(used =~= parsed);
    let (batch, predicted) = choose|batch: Vec<Query<P>>, predicted: TxnStatus|
        {
            &&& is_batch_of(queries, used, batch@)
            &&& #[trigger] call_ensures(predict, (&batch,), predicted)
            &&& match batch_error(batch@, predicted) {
                Some(error) => r matches Err(e) && e@ == error,
                None => r == Ok::<Vec<Query<P>>, Error>(batch),
            }
        };
    (batch, predicted)
}

/// Savepoints are refused, over the outcome of a parse.
pub proof fn lemma_savepoint_outcome<
    P,
    F: Fn(&str) -> Parsed,
    G: Fn(&Vec<Query<P>>) -> TxnStatus,
>(
    queries: Seq<QueryObject<P>>,
    parse: F,
    predict: G,
    parsed: Seq<Parsed>,
    j: int,
    stmt: Statement,
    r: Result<Vec<Query<P>>, Error>,
)
    requires
        is_parse_outcome(queries, parse, predict, r),
        have_parses(queries, parse, parsed),
        forall|i: int| 0 <= i < parsed.len() ==> is_clean(#[trigger] parsed[i]),
        0 <= j < parsed.len(),
        parsed[j].first == Some(Ok::<Statement, String>(stmt)),
        stmt.kind == StmtKind::Savepoint || stmt.kind == StmtKind::Release,
    ensures
        r matches Err(e) && e@ == (
            ErrorKind::QueryError,
            "savepoints are not supported in HTTP API, use hrana protocol instead"@,
        ),
{
    let (batch, predicted) = lemma_outcome_of_clean(queries, parse, predict, parsed, r);
    assert(is_statement_of(parsed[j], batch@[j].stmt));
    assert(batch@[j].stmt == stmt);
}

/// A batch of clean texts in which some statement, at any place, opens or releases a savepoint is
/// refused, whatever state it is predicted to end in.
pub proof fn lemma_savepoint_is_refused<
    P,
    F: Fn(&str) -> Parsed,
    G: Fn(&Vec<Query<P>>) -> TxnStatus,
>(
    queries: Vec<QueryObject<P>>,
    parse: F,
    predict: G,
    parsed: Seq<Parsed>,
    j: int,
    stmt: Statement,
    r: Result<Vec<Query<P>>, Error>,
)
    requires
        call_ensures(parse_queries::<P, F, G>, (queries, parse, predict), r),
        have_parses(queries@, parse, parsed),
        forall|i: int| 0 <= i < parsed.len() ==> is_clean(#[trigger] parsed[i]),
        0 <= j < parsed.len(),
        parsed[j].first == Some(Ok::<Statement, String>(stmt)),
        stmt.kind == StmtKind::Savepoint || stmt.kind == StmtKind::Release,
    ensures
        r matches Err(e) && e@ == (
            ErrorKind::QueryError,
            "savepoints are not supported in HTTP API, use hrana protocol instead"@,
        ),
{
    lemma_savepoint_outcome(queries@, parse, predict, parsed, j, stmt, r);
}

/// A batch of clean texts without savepoints is refused if it is predicted to leave a transaction
/// open, and accepted if it is predicted not to.
pub proof fn lemma_open_transaction_is_refused<
    P,
    F: Fn(&str) -> Parsed,
    G: Fn(&Vec<Query<P>>) -> TxnStatus,
>(
    queries: Vec<QueryObject<P>>,
    parse: F,
    predict: G,
    parsed: Seq<Parsed>,
    open: bool,
    r: Result<Vec<Query<P>>, Error>,
)
    requires
        call_ensures(parse_queries::<P, F, G>, (queries, parse, predict), r),
        have_parses(queries@, parse, parsed),
        forall|i: int|
            0 <= i < parsed.len() ==> is_clean(#[trigger] parsed[i]) && (
            parsed[i].first matches Some(Ok(s)) ==> s.kind == StmtKind::Other),
        forall|b: Vec<Query<P>>, s: TxnStatus| #[trigger]
            call_ensures(predict, (&b,), s) ==> (s == TxnStatus::Txn <==> open),
    ensures
        if open {
            r matches Err(e) && e@ == (
                ErrorKind::QueryError,
                "interactive transaction not allowed in HTTP queries"@,
            )
        } else {
            r is Ok
        },
{
    let (batch, predicted) = lemma_outcome_of_clean(queries@, parse, predict, parsed, r);
    assert forall|i: int| 0 <= i < batch@.len() implies (
    #[trigger] batch@[i]).stmt.kind == StmtKind::Other by {
        assert(is_statement_of(parsed[i], batch@[i].stmt));
    }
}

/// The first text that is not clean decides: a batch is refused with the error of its parser, or
/// because the text holds several commands.
pub proof fn lemma_first_bad_text_is_reported<
    P,
    F: Fn(&str) -> Parsed,
    G: Fn(&Vec<Query<P>>) -> TxnStatus,
>(
    queries: Vec<QueryObject<P>>,
    parse: F,
    predict: G,
    parsed: Seq<Parsed>,
    j: int,
    r: Result<Vec<Query<P>>, Error>,
)
    requires
        call_ensures(parse_queries::<P, F, G>, (queries, parse, predict), r),
        have_parses(queries@, parse, parsed),
        0 <= j < parsed.len(),
        forall|i: int| 0 <= i < j ==> is_clean(#[trigger] parsed[i]),
        !is_clean(parsed[j]),
    ensures
        r matches Err(e) && (match parsed[j].first {
            Some(Err(source)) => e@ == (ErrorKind::Syntax, source@),
            _ => e@ == (
                ErrorKind::FailedToParse,
                "found more than one command in a single statement string. It is allowed to issue only one command per string."@,
            ),
        }),
{
    let used = choose|used: Seq<Parsed>|
        {
            &&& used.len() <= queries@.len()
            &&& used.len() < queries@.len() ==> first_text_error(used) is Some
            &&& forall|i: int|
                0 <= i < used.len() ==> parses_to(parse, queries@[i].q@, #[trigger] used[i])
            &&& #[trigger] is_batch_outcome(queries@, used, predict, r)
        };
    assert forall|i: int| 0 <= i < used.len() implies used[i] == parsed[i] by {
        assert(parses_to(parse, queries@[i].q@, used[i]));
        assert(parses_only_to(parse, queries@[i].q@, parsed[i]));
    }
    if used.len() <= j {
        assert forall|i: int| 0 <= i < used.len() implies text_error(
            #[trigger] used[i],
        ) is None by {
            assert(used[i] == parsed[i]);
        }
        lemma_no_text_error(used);
    } else {
        assert forall|k: int| 0 <= k < j implies text_error(#[trigger] used[k]) is None by {
            assert(used[k] == parsed[k]);
        }
        assert(used[j] == parsed[j]);
        lemma_first_text_error_at(used, j);
    }
}

/// A text yields its own statement exactly if it is clean.
pub proof fn lemma_query_statement(parsed: &Parsed, r: Result<Statement, Error>)
    requires
        call_ensures(query_statement, (parsed,), r),
    ensures
        r is Ok <==> is_clean(*parsed),
        r matches Ok(stmt) ==> match parsed.first {
            Some(Ok(s)) => stmt == s,
            _ => stmt.stmt@.len() == 0 && stmt.kind == StmtKind::Other,
        },
        r matches Err(e) ==> match parsed.first {
            Some(Err(source)) => e@ == (ErrorKind::Syntax, source@),
            _ => e@ == (
                ErrorKind::FailedToParse,
                "found more than one command in a single statement string. It is allowed to issue only one command per string."@,
            ),
        },
{
}

/// A checked batch comes back as it is. It does so exactly if none of its statements opens or
/// releases a savepoint and it does not end inside a transaction.
pub proof fn lemma_check_batch<P>(
    batch: Vec<Query<P>>,
    predicted: TxnStatus,
    r: Result<Vec<Query<P>>, Error>,
)
    requires
        call_ensures(check_batch::<P>, (batch, predicted), r),
    ensures
        r is Ok <==> predicted != TxnStatus::Txn && forall|i: int|
            0 <= i < batch@.len() ==> (#[trigger] batch@[i]).stmt.kind == StmtKind::Other,
        r matches Ok(b) ==> b == batch,
        r matches Err(e) ==> e.kind == ErrorKind::QueryError && (e.message@
            == "savepoints are not supported in HTTP API, use hrana protocol instead"@ || predicted
            == TxnStatus::Txn),
{
}

} // verus!
