//! A cache of parsed statements.
//!
//! Parsing is expensive and its result depends on the SQL text alone, so the result is kept
//! by text. The cache is bounded by the size of the texts that it holds.

use vstd::prelude::*;
use vstd::utf8::*;

use crate::stmt::{parse_uncached, single_statement, Parsed, Statement, StmtError};

verus! {

/// The bound of the cache, in bytes.
pub const PARSED_STMT_CACHE_BYTES: u64 = 64 * 1024 * 1024;

/// A concurrent cache with eviction, from the `moka` crate.
#[verifier::external_type_specification]
#[verifier::external_body]
#[verifier::reject_recursive_types(K)]
#[verifier::reject_recursive_types(V)]
#[verifier::reject_recursive_types(S)]
pub struct ExCache<K, V, S>(moka::sync::Cache<K, V, S>);

/// The statement that was last put in under each text.
pub uninterp spec fn cache_entries(
    cache: moka::sync::Cache<String, Statement, std::hash::RandomState>,
) -> Map<Seq<char>, Statement>;

/// The total weight that a cache was made for.
pub uninterp spec fn cache_capacity(
    cache: moka::sync::Cache<String, Statement, std::hash::RandomState>,
) -> u64;

/// The weight that a cache gives to an entry: a text, and the text of its statement.
pub uninterp spec fn cache_weight(
    cache: moka::sync::Cache<String, Statement, std::hash::RandomState>,
    entry: (Seq<char>, Seq<char>),
) -> nat;

/// The weight of an entry: the bytes of its text and of its statement, as far as a `u32`
/// counts them.
pub open spec fn entry_weight(key: Seq<char>, stmt: Seq<char>) -> nat {
    let bytes = encode_utf8(key).len() + encode_utf8(stmt).len();
    if bytes <= u32::MAX {
        bytes
    } else {
        u32::MAX as nat
    }
}

/// Weighs an entry of the cache.
pub fn weigh(key: &String, stmt: &Statement) -> (r: u32)
    ensures
        r == entry_weight(key@, stmt.stmt@),
{
    let k: u128 = key.as_str().as_bytes().len() as u128;
    let s: u128 = stmt.stmt.as_str().as_bytes().len() as u128;
    let limit: u128 = u32::MAX as u128;
    if k + s <= limit {
        (k + s) as u32
    } else {
        u32::MAX
    }
}

/// `CacheBuilder::build` makes an empty cache that holds entries up to the given total weight,
/// as the weigher counts it. Entries are evicted in the background, so the cache may hold more
/// for a moment; nothing is claimed of when.
#[verifier::external_body]
fn build_cache(capacity: u64) -> (r: moka::sync::Cache<String, Statement, std::hash::RandomState>)
    ensures
        cache_entries(r).dom() == Set::<Seq<char>>::empty(),
        cache_capacity(r) == capacity,
        forall|e: (Seq<char>, Seq<char>)| #[trigger] cache_weight(r, e) == entry_weight(e.0, e.1),
{
    moka::sync::Cache::builder()
        .weigher(|key: &String, stmt: &Statement| weigh(key, stmt))
        .max_capacity(capacity)
        .build()
}

/// `Cache::get` finds the statement last put in under a text, unless it was evicted.
#[verifier::external_body]
fn cache_get(
    cache: &moka::sync::Cache<String, Statement, std::hash::RandomState>,
    sql: &str,
) -> (r: Option<Statement>)
    ensures
        r matches Some(stmt) ==> cache_entries(*cache).contains_key(sql@) && stmt
            == cache_entries(*cache)[sql@],
{
    cache.get(sql)
}

/// `Cache::insert` puts a statement in under a text, in place of an earlier one.
#[verifier::external_body]
fn cache_insert(
    cache: &mut moka::sync::Cache<String, Statement, std::hash::RandomState>,
    sql: String,
    stmt: Statement,
)
    ensures
        cache_entries(*final(cache)) == cache_entries(*old(cache)).insert(sql@, stmt),
        cache_capacity(*final(cache)) == cache_capacity(*old(cache)),
        forall|e: (Seq<char>, Seq<char>)| #[trigger]
            cache_weight(*final(cache), e) == cache_weight(*old(cache), e),
{
    cache.insert(sql, stmt)
}

/// Whether `parse` can yield `parsed` on a text.
pub open spec fn parses_to<F: Fn(&str) -> Parsed>(parse: F, sql: Seq<char>, parsed: Parsed) -> bool {
    exists|text: &str| text@ == sql && #[trigger] call_ensures(parse, (text,), parsed)
}

/// Whether `r` is a single-statement parse of a text.
pub open spec fn is_parse<F: Fn(&str) -> Parsed>(
    parse: F,
    sql: Seq<char>,
    r: Result<Statement, StmtError>,
) -> bool {
    exists|parsed: Parsed| #[trigger] parses_to(parse, sql, parsed) && r == single_statement(parsed)
}

/// A parser with a cache of its results.
pub struct StmtCache<F: Fn(&str) -> Parsed> {
    cache: moka::sync::Cache<String, Statement, std::hash::RandomState>,
    parse: F,
}

impl<F: Fn(&str) -> Parsed> StmtCache<F> {
    /// The parser behind the cache.
    pub closed spec fn parser(&self) -> F {
        self.parse
    }

    /// The statements that the cache may hold, by text.
    pub closed spec fn entries(&self) -> Map<Seq<char>, Statement> {
        cache_entries(self.cache)
    }

    /// The bound of the cache.
    pub closed spec fn capacity(&self) -> u64 {
        cache_capacity(self.cache)
    }

    /// What an entry counts towards the bound.
    pub closed spec fn weight(&self, entry: (Seq<char>, Seq<char>)) -> nat {
        cache_weight(self.cache, entry)
    }

    /// The parser accepts every text, every entry is what it yields on the entry's text, and
    /// entries count by their bytes.
    pub open spec fn wf(&self) -> bool {
        &&& forall|e: (Seq<char>, Seq<char>)| #[trigger]
            self.weight(e) == entry_weight(e.0, e.1)
        &&& forall|text: &str| call_requires(self.parser(), (text,))
        &&& forall|sql: Seq<char>| #[trigger]
            self.entries().contains_key(sql) ==> is_parse(
                self.parser(),
                sql,
                Ok(self.entries()[sql]),
            )
    }

    /// A parser with an empty cache.
    pub fn new(parse: F) -> (r: Self)
        requires
            forall|text: &str| call_requires(parse, (text,)),
        ensures
            r.wf(),
            r.parser() == parse,
            r.entries() == Map::<Seq<char>, Statement>::empty(),
            r.capacity() == PARSED_STMT_CACHE_BYTES,
    {
        let r = StmtCache { cache: build_cache(PARSED_STMT_CACHE_BYTES), parse };
        assert(r.entries() =~= Map::<Seq<char>, Statement>::empty());
        r
    }

    /// Parses a text that must hold a single statement. A result that is found in the cache is
    /// what parsing would have yielded; one that is not is computed, and kept if it is no error.
    pub fn parse_cached(&mut self, sql: &str) -> (r: Result<Statement, StmtError>)
        requires
            old(self).wf(),
        ensures
            final(self).wf(),
            is_parse(old(self).parser(), sql@, r),
            final(self).parser() == old(self).parser(),
            final(self).capacity() == old(self).capacity(),
            match r {
                Ok(stmt) => final(self).entries() == old(self).entries().insert(sql@, stmt),
                Err(_) => final(self).entries() == old(self).entries(),
            },
    {
        let found = cache_get(&self.cache, sql);
        let r = self.parse_found(sql, found);
        assert(r matches Ok(stmt) ==> self.entries() =~= old(self).entries().insert(sql@, stmt));
        r
    }

    /// Goes on once a text was looked for in the cache. What was found there is the result, and
    /// nothing is parsed; otherwise the text is parsed, and the result kept if it is no error.
    pub fn parse_found(&mut self, sql: &str, found: Option<Statement>) -> (r: Result<
        Statement,
        StmtError,
    >)
        requires
            old(self).wf(),
            found matches Some(stmt) ==> old(self).entries().contains_key(sql@) && stmt
                == old(self).entries()[sql@],
        ensures
            final(self).wf(),
            is_parse(old(self).parser(), sql@, r),
            final(self).parser() == old(self).parser(),
            final(self).capacity() == old(self).capacity(),
            match found {
                Some(stmt) => r == Ok::<Statement, StmtError>(stmt) && final(self).entries()
                    == old(self).entries(),
                None => match r {
                    Ok(stmt) => final(self).entries() == old(self).entries().insert(sql@, stmt),
                    Err(_) => final(self).entries() == old(self).entries(),
                },
            },
    {
        if let Some(stmt) = found {
            return Ok(stmt);
        }
        assert(call_requires(self.parser(), (sql,)));
        let parsed = (self.parse)(sql);
        assert(parses_to(self.parser(), sql@, parsed));
        match parse_uncached(parsed) {
            Ok(stmt) => {
                cache_insert(&mut self.cache, sql.to_owned(), stmt.clone());
                assert(is_parse(self.parser(), sql@, Ok(stmt)));
                assert forall|e: (Seq<char>, Seq<char>)| #[trigger]
                    self.weight(e) == entry_weight(e.0, e.1) by {
                    assert(old(self).weight(e) == entry_weight(e.0, e.1));
                }
                assert forall|text: Seq<char>| #[trigger] self.entries().contains_key(text) implies is_parse(
                    self.parser(),
                    text,
                    Ok(self.entries()[text]),
                ) by {
                    if text != sql@ {
                        assert(old(self).entries().contains_key(text));
                    }
                }
                Ok(stmt)
            },
            Err(e) => Err(e),
        }
    }
}

/// Whether what a parser yields depends on the text alone.
pub open spec fn depends_on_text<F: Fn(&str) -> Parsed>(parse: F) -> bool {
    forall|sql: Seq<char>, p: Parsed, q: Parsed| #[trigger]
        parses_to(parse, sql, p) && #[trigger] parses_to(parse, sql, q) ==> p == q
}

/// The cache cannot be seen from outside: what is parsed from a text is the same whenever it is
/// parsed, whether it is found in the cache or computed.
pub proof fn lemma_cache_is_invisible<F: Fn(&str) -> Parsed>(
    parse: F,
    sql: Seq<char>,
    a: Result<Statement, StmtError>,
    b: Result<Statement, StmtError>,
)
    requires
        depends_on_text(parse),
        is_parse(parse, sql, a),
        is_parse(parse, sql, b),
    ensures
        a == b,
{
}


/// What is kept of a text is what was parsed from it: a second parse of the text yields what the
/// first one yielded, and a statement that was parsed is the only one in the text.
pub proof fn lemma_parse_again<F: Fn(&str) -> Parsed>(
    cache: &mut StmtCache<F>,
    again: &mut StmtCache<F>,
    sql: &str,
    a: Result<Statement, StmtError>,
    b: Result<Statement, StmtError>,
)
    requires
        depends_on_text(old(cache).parser()),
        call_ensures(StmtCache::<F>::parse_cached, (cache, sql), a),
        *final(cache) == *old(again),
        call_ensures(StmtCache::<F>::parse_cached, (again, sql), b),
    ensures
        a == b,
        a matches Ok(stmt) ==> final(cache).entries().contains_key(sql@)
            && final(cache).entries()[sql@] == stmt && exists|p: Parsed| #[trigger]
            parses_to(old(cache).parser(), sql@, p) && !p.more && p.first == Some(
                Ok::<Statement, String>(stmt),
            ),
        a is Err ==> final(cache).entries() == old(cache).entries(),
{
    lemma_cache_is_invisible(old(cache).parser(), sql@, a, b);
}

/// Parsing one text leaves what is kept of the others.
pub proof fn lemma_other_texts_stay<F: Fn(&str) -> Parsed>(
    cache: &mut StmtCache<F>,
    sql: &str,
    r: Result<Statement, StmtError>,
    other: Seq<char>,
)
    requires
        call_ensures(StmtCache::<F>::parse_cached, (cache, sql), r),
        other != sql@,
    ensures
        final(cache).entries().contains_key(other) == old(cache).entries().contains_key(other),
        final(cache).entries().contains_key(other) ==> final(cache).entries()[other]
            == old(cache).entries()[other],
{
}

/// A statement that was found is returned as it is, and nothing is kept anew.
pub proof fn lemma_found_is_returned<F: Fn(&str) -> Parsed>(
    cache: &mut StmtCache<F>,
    sql: &str,
    stmt: Statement,
    r: Result<Statement, StmtError>,
)
    requires
        call_ensures(StmtCache::<F>::parse_found, (cache, sql, Some(stmt)), r),
    ensures
        r matches Ok(s) && s == stmt,
        final(cache).entries() == old(cache).entries(),
{
}

/// An entry weighs the bytes of its two texts, but never more than a `u32` holds: a text more
/// does not make it lighter.
pub proof fn lemma_weight(key: &String, stmt: &Statement, r: u32)
    requires
        call_ensures(weigh, (key, stmt), r),
    ensures
        r <= encode_utf8(key@).len() + encode_utf8(stmt.stmt@).len(),
        r < u32::MAX ==> r == encode_utf8(key@).len() + encode_utf8(stmt.stmt@).len(),
{
}


/// A new cache is empty, has room for 64 MiB, and asks the parser that it was given. Parsing
/// changes neither the parser nor the room.
pub proof fn lemma_new_cache<F: Fn(&str) -> Parsed>(
    parse: F,
    fresh: StmtCache<F>,
    used: &mut StmtCache<F>,
    sql: &str,
    r: Result<Statement, StmtError>,
)
    requires
        call_ensures(StmtCache::<F>::new, (parse,), fresh),
        *old(used) == fresh,
        call_ensures(StmtCache::<F>::parse_cached, (used, sql), r),
    ensures
        fresh.capacity() == 67_108_864,
        fresh.parser() == parse,
        forall|text: Seq<char>| !(#[trigger] fresh.entries().contains_key(text)),
        final(used).capacity() == 67_108_864,
        final(used).parser() == parse,
        forall|text: Seq<char>| #[trigger]
            final(used).entries().contains_key(text) ==> text == sql@ && r is Ok,
{
}

/// A text that was not found is parsed, and kept exactly if it holds a single statement.
pub proof fn lemma_not_found_is_parsed<F: Fn(&str) -> Parsed>(
    cache: &mut StmtCache<F>,
    sql: &str,
    r: Result<Statement, StmtError>,
)
    requires
        call_ensures(StmtCache::<F>::parse_found, (cache, sql, None), r),
    ensures
        exists|p: Parsed|
            {
                &&& #[trigger] parses_to(old(cache).parser(), sql@, p)
                &&& r is Ok <==> !p.more && (p.first matches Some(Ok(_)))
                &&& r matches Ok(stmt) ==> p.first == Some(Ok::<Statement, String>(stmt))
            },
        r matches Ok(stmt) ==> final(cache).entries().contains_key(sql@)
            && final(cache).entries()[sql@] == stmt,
        r is Err ==> final(cache).entries() == old(cache).entries(),
{
    let p = choose|p: Parsed| #[trigger]
        parses_to(old(cache).parser(), sql@, p) && r == crate::stmt::single_statement(p);
    assert(parses_to(old(cache).parser(), sql@, p));
}

} // verus!
