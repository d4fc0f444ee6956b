//! SQL statements.

use vstd::prelude::*;

verus! {

/// The kinds of statements that are told apart.
#[derive(Clone, Copy, Debug, PartialEq, Eq, Structural)]
pub enum StmtKind {
    Savepoint,
    Release,
    Other,
}

/// A parsed statement: its text and its kind.
#[derive(Debug)]
pub struct Statement {
    pub stmt: String,
    pub kind: StmtKind,
}

impl Clone for Statement {
    fn clone(&self) -> (r: Self)
        ensures
            r == *self,
    {
        Statement { stmt: self.stmt.clone(), kind: self.kind }
    }
}

impl Default for Statement {
    /// The empty statement.
    fn default() -> (r: Self)
        ensures
            r.stmt@ == Seq::<char>::empty(),
            r.kind == StmtKind::Other,
    {
        Statement { stmt: String::new(), kind: StmtKind::Other }
    }
}

/// What the parser finds in a text: its first statement, or the error on which it stopped, and
/// whether anything follows.
#[derive(Debug)]
pub struct Parsed {
    pub first: Option<Result<Statement, String>>,
    pub more: bool,
}

/// Why a text is not a single statement.
#[derive(Debug)]
pub enum StmtError {
    /// The parser stopped with an error.
    SqlParse { source: String },
    /// The text holds no statement.
    SqlNoStmt,
    /// The text holds more than one statement.
    SqlManyStmts,
}

/// The statement of a text that holds exactly one.
pub open spec fn single_statement(parsed: Parsed) -> Result<Statement, StmtError> {
    match parsed.first {
        Some(Ok(stmt)) => if parsed.more {
            Err(StmtError::SqlManyStmts)
        } else {
            Ok(stmt)
        },
        Some(Err(source)) => Err(StmtError::SqlParse { source }),
        None => Err(StmtError::SqlNoStmt),
    }
}

/// Takes the statement out of a text that must hold exactly one.
pub fn parse_uncached(parsed: Parsed) -> (r: Result<Statement, StmtError>)
    ensures
        r == single_statement(parsed),
{
    let stmt = match parsed.first {
        Some(Ok(stmt)) => stmt,
        Some(Err(source)) => return Err(StmtError::SqlParse { source }),
        None => return Err(StmtError::SqlNoStmt),
    };
    if parsed.more {
        return Err(StmtError::SqlManyStmts);
    }
    Ok(stmt)
}


/// A text yields a statement exactly if that is all it holds. Otherwise the error tells which of
/// the three it is: the parser stopped, there is no statement, or there are several.
pub proof fn lemma_single_statement(
    parsed: Parsed,
    r: Result<Statement, StmtError>,
    stmt: Statement,
    source: String,
)
    requires
        call_ensures(parse_uncached, (parsed,), r),
    ensures
        r == Ok::<Statement, StmtError>(stmt) <==> !parsed.more && parsed.first == Some(
            Ok::<Statement, String>(stmt),
        ),
        r == Err::<Statement, StmtError>(StmtError::SqlParse { source }) <==> parsed.first == Some(
            Err::<Statement, String>(source),
        ),
        r == Err::<Statement, StmtError>(StmtError::SqlNoStmt) <==> parsed.first is None,
        r == Err::<Statement, StmtError>(StmtError::SqlManyStmts) <==> parsed.more && (
        parsed.first matches Some(Ok(_))),
{
}

} // verus!
