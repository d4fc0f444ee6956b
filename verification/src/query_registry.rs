//! The registry of in-flight queries: which connection runs what, since when, and whether it
//! still makes progress.
//!
//! Instants are nanoseconds since an origin that the caller fixes once.

use std::collections::HashMap;

use vstd::prelude::*;
use vstd::utf8::*;

use crate::namespace::NamespaceName;
use crate::text::{
    chars_of, is_decimal_of, lemma_decimal, push_signed, signed_decimal, split_words, string_of,
    trim, trimmed, words,
};

verus! {

broadcast use vstd::std_specs::hash::group_hash_axioms;

/// The longest SQL text, in bytes, that is reported in full.
pub const MAX_SQL_LENGTH: usize = 200;

/// A query whose heartbeat is older than this many milliseconds is blocked.
pub const HEARTBEAT_TIMEOUT_MS: u64 = 1000;

/// How often, in milliseconds, a running query may renew its heartbeat.
pub const HEARTBEAT_INTERVAL_MS: u64 = 50;

// SQL text.

/// Whether a text can be cut for the report: it is short enough once trimmed, or the cut does
/// not fall inside a character.
pub open spec fn truncatable(sql: Seq<char>) -> bool {
    let bytes = encode_utf8(trimmed(sql));
    bytes.len() > MAX_SQL_LENGTH ==> is_char_boundary(bytes, MAX_SQL_LENGTH as int)
}

/// The reported form of an SQL text: trimmed, and cut with an ellipsis when it is too long.
pub open spec fn truncated(sql: Seq<char>) -> Seq<char> {
    let bytes = encode_utf8(trimmed(sql));
    if bytes.len() <= MAX_SQL_LENGTH {
        trimmed(sql)
    } else {
        decode_utf8(bytes.subrange(0, MAX_SQL_LENGTH as int)) + "..."@
    }
}

/// Encoding a concatenation concatenates the encodings.
pub proof fn lemma_encode_concat(a: Seq<char>, b: Seq<char>)
    ensures
        encode_utf8(a + b) == encode_utf8(a) + encode_utf8(b),
    decreases a.len(),
{
    if a.len() == 0 {
        assert(a + b =~= b);
    } else {
        assert((a + b).drop_first() =~= a.drop_first() + b);
        lemma_encode_concat(a.drop_first(), b);
    }
}

/// The reported form of an SQL text is at most three bytes longer than the limit.
pub proof fn lemma_truncated_is_short(sql: Seq<char>)
    requires
        truncatable(sql),
    ensures
        encode_utf8(truncated(sql)).len() <= MAX_SQL_LENGTH + 3,
{
    let text = trimmed(sql);
    let bytes = encode_utf8(text);
    if bytes.len() > MAX_SQL_LENGTH {
        let head = bytes.subrange(0, MAX_SQL_LENGTH as int);
        encode_utf8_valid_utf8(text);
        valid_utf8_split(bytes, MAX_SQL_LENGTH as int);
        decode_utf8_encode_utf8(head);
        lemma_encode_concat(decode_utf8(head), "..."@);
        reveal_strlit("...");
        is_ascii_chars_encode_utf8("..."@);
    }
}

/// Whether an SQL text can be cut for the report.
pub fn is_truncatable(sql: &str) -> (r: bool)
    ensures
        r == truncatable(sql@),
{
    let text = trim(sql);
    text.as_str().as_bytes().len() <= MAX_SQL_LENGTH || text.as_str().is_char_boundary(
        MAX_SQL_LENGTH,
    )
}

/// The SQL text for the report.
pub fn truncate(sql: &str) -> (r: String)
    requires
        truncatable(sql@),
    ensures
        r@ == truncated(sql@),
        encode_utf8(r@).len() <= MAX_SQL_LENGTH + 3,
{
    proof {
        lemma_truncated_is_short(sql@);
    }
    let text = trim(sql);
    if text.as_str().as_bytes().len() <= MAX_SQL_LENGTH {
        text
    } else {
        let (head, _) = text.as_str().split_at(MAX_SQL_LENGTH);
        proof {
            encode_utf8_decode_utf8(head@);
        }
        let mut out = head.to_owned();
        out.append("...");
        out
    }
}

// Entries.

/// The thread that a query runs on.
#[derive(Debug)]
pub struct ThreadInfo {
    pub thread_id: String,
    /// The thread id of the operating system, or 0 where there is none.
    pub tid: i32,
}

/// A program: the SQL text of its steps.
#[derive(Debug)]
pub struct Program {
    pub steps: Vec<String>,
}

/// An in-flight query.
#[derive(Debug)]
struct ActiveQuery {
    namespace: NamespaceName,
    kind: &'static str,
    thread: ThreadInfo,
    current_step: usize,
    total_steps: usize,
    current_sql: String,
    started_at: u64,
    last_heartbeat_at: u64,
}

/// What the registry knows of an in-flight query.
pub struct QueryView {
    pub namespace: Seq<char>,
    pub kind: Seq<char>,
    pub thread_id: Seq<char>,
    pub tid: i32,
    pub current_step: usize,
    pub total_steps: usize,
    pub current_sql: Seq<char>,
    pub started_at: u64,
    pub last_heartbeat_at: u64,
}

impl ActiveQuery {
    spec fn model(self) -> QueryView {
        QueryView {
            namespace: self.namespace@,
            kind: self.kind@,
            thread_id: self.thread.thread_id@,
            tid: self.thread.tid,
            current_step: self.current_step,
            total_steps: self.total_steps,
            current_sql: self.current_sql@,
            started_at: self.started_at,
            last_heartbeat_at: self.last_heartbeat_at,
        }
    }
}

/// The entry of a job that starts at `now`.
pub open spec fn fresh_entry(
    namespace: Seq<char>,
    kind: Seq<char>,
    sql: Seq<char>,
    total_steps: usize,
    thread: ThreadInfo,
    now: u64,
) -> QueryView {
    QueryView {
        namespace,
        kind,
        thread_id: thread.thread_id@,
        tid: thread.tid,
        current_step: 0,
        total_steps,
        current_sql: sql,
        started_at: now,
        last_heartbeat_at: now,
    }
}

/// The SQL that a program shows when it starts: that of its first step, if it has one.
pub open spec fn first_sql(program: Program) -> Seq<char> {
    if program.steps@.len() == 0 {
        Seq::empty()
    } else {
        truncated(program.steps@[0]@)
    }
}

/// A registry after an entry changed, if it is there.
pub open spec fn with_entry(
    m: Map<usize, QueryView>,
    key: usize,
    entry: QueryView,
) -> Map<usize, QueryView> {
    if m.contains_key(key) {
        m.insert(key, entry)
    } else {
        m
    }
}

// Snapshots.

/// The report on an in-flight query.
#[derive(Debug)]
pub struct ActiveQuerySnapshot {
    pub conn_id: usize,
    /// `query` for statement execution, `sync` for frame reads served to replicas.
    pub kind: &'static str,
    pub thread_id: String,
    pub tid: i32,
    pub namespace: String,
    /// `running` when the query made progress recently, `blocked` otherwise.
    pub state: &'static str,
    pub current_step: usize,
    pub total_steps: usize,
    pub current_sql: String,
    pub elapsed_ms: u64,
    pub last_heartbeat_ms_ago: u64,
}

/// Milliseconds from `then` to `now`, or 0 if `then` lies ahead.
pub open spec fn millis_since(then: u64, now: u64) -> u64 {
    if then <= now {
        ((now - then) / 1_000_000) as u64
    } else {
        0
    }
}

/// Whether a query made progress within the timeout: its heartbeat is not older than that.
pub open spec fn is_running(q: QueryView, now: u64) -> bool {
    now <= q.last_heartbeat_at + HEARTBEAT_TIMEOUT_MS * 1_000_000
}

/// Whether `s` reports on the query `q` of connection `key` as of `now`.
pub open spec fn reports(s: ActiveQuerySnapshot, key: usize, q: QueryView, now: u64) -> bool {
    &&& s.conn_id == key
    &&& s.kind@ == q.kind
    &&& s.thread_id@ == q.thread_id
    &&& s.tid == q.tid
    &&& s.namespace@ == q.namespace
    &&& s.state@ == if is_running(q, now) {
        "running"@
    } else {
        "blocked"@
    }
    &&& s.current_step == q.current_step
    &&& s.total_steps == q.total_steps
    &&& s.current_sql@ == q.current_sql
    &&& s.elapsed_ms == millis_since(q.started_at, now)
    &&& s.last_heartbeat_ms_ago == millis_since(q.last_heartbeat_at, now)
}

/// Whether `r` reports on every query of `m` exactly once, longest running first.
pub open spec fn is_process_list(
    r: Seq<ActiveQuerySnapshot>,
    m: Map<usize, QueryView>,
    now: u64,
) -> bool {
    &&& r.len() == m.dom().len()
    &&& forall|i: int| #![trigger r[i]]
        0 <= i < r.len() ==> m.contains_key(r[i].conn_id) && reports(
            r[i],
            r[i].conn_id,
            m[r[i].conn_id],
            now,
        )
    &&& forall|key: usize| #[trigger]
        m.contains_key(key) ==> exists|i: int| 0 <= i < r.len() && (#[trigger] r[i]).conn_id == key
    &&& forall|i: int, j: int| #![trigger r[i], r[j]]
        0 <= i < j < r.len() ==> r[i].conn_id != r[j].conn_id && m[r[i].conn_id].started_at
            <= m[r[j].conn_id].started_at
}

fn elapsed_millis(then: u64, now: u64) -> (r: u64)
    ensures
        r == millis_since(then, now),
{
    if then <= now {
        (now - then) / 1_000_000
    } else {
        0
    }
}

fn running(last_heartbeat_at: u64, now: u64) -> (r: bool)
    ensures
        r == (now <= last_heartbeat_at + HEARTBEAT_TIMEOUT_MS * 1_000_000),
{
    now <= last_heartbeat_at || now - last_heartbeat_at <= HEARTBEAT_TIMEOUT_MS * 1_000_000
}

proof fn lemma_push_contains(s: Seq<usize>, key: usize, k: usize)
    ensures
        s.push(key).contains(k) <==> s.contains(k) || k == key,
{
    if s.contains(k) {
        let i = choose|i: int| 0 <= i < s.len() && s[i] == k;
        assert(s.push(key)[i] == k);
    }
    if k == key {
        assert(s.push(key)[s.len() as int] == k);
    }
}

proof fn lemma_insert_contains(s: Seq<usize>, at: int, key: usize, k: usize)
    requires
        0 <= at <= s.len(),
    ensures
        s.insert(at, key).contains(k) <==> s.contains(k) || k == key,
{
    let t = s.insert(at, key);
    assert(t[at] == key);
    if s.contains(k) {
        let i = choose|i: int| 0 <= i < s.len() && s[i] == k;
        assert(t[if i < at { i } else { i + 1 }] == k);
    }
    if t.contains(k) && k != key {
        let i = choose|i: int| 0 <= i < t.len() && t[i] == k;
        assert(s[if i < at { i } else { i - 1 }] == k);
    }
}

proof fn lemma_insert_no_duplicates(s: Seq<usize>, at: int, key: usize)
    requires
        0 <= at <= s.len(),
        s.no_duplicates(),
        !s.contains(key),
    ensures
        s.insert(at, key).no_duplicates(),
{
    let t = s.insert(at, key);
    assert forall|i: int, j: int| 0 <= i < t.len() && 0 <= j < t.len() && i != j implies t[i] != t[j] by {
        let p = if i < at { i } else { i - 1 };
        let q = if j < at { j } else { j - 1 };
        if i != at {
            assert(t[i] == s[p]);
        }
        if j != at {
            assert(t[j] == s[q]);
        }
    }
}

// The registry.

/// The in-flight queries, by connection.
pub struct QueryRegistry {
    entries: HashMap<usize, ActiveQuery>,
}

impl View for QueryRegistry {
    type V = Map<usize, QueryView>;

    closed spec fn view(&self) -> Map<usize, QueryView> {
        self.entries@.map_values(|q: ActiveQuery| q.model())
    }
}

impl QueryRegistry {
    /// A registry without entries.
    pub fn new() -> (r: Self)
        ensures
            r@ == Map::<usize, QueryView>::empty(),
    {
        let r = QueryRegistry { entries: HashMap::new() };
        assert(r@ =~= Map::<usize, QueryView>::empty());
        r
    }

    /// Registers a query about to be executed.
    pub fn register(
        &mut self,
        key: usize,
        namespace: NamespaceName,
        program: &Program,
        thread: ThreadInfo,
        now: u64,
    )
        requires
            program.steps@.len() > 0 ==> truncatable(program.steps@[0]@),
        ensures
            final(self)@ == old(self)@.insert(
                key,
                fresh_entry(
                    namespace@,
                    "query"@,
                    first_sql(*program),
                    program.steps@.len() as usize,
                    thread,
                    now,
                ),
            ),
    {
        let sql = if program.steps.len() == 0 {
            String::new()
        } else {
            truncate(program.steps[0].as_str())
        };
        self.insert_entry(key, namespace, "query", sql, program.steps.len(), thread, now);
    }

    /// Registers a job that is no query, such as a read of replication frames.
    pub fn register_job(
        &mut self,
        key: usize,
        namespace: NamespaceName,
        label: String,
        thread: ThreadInfo,
        now: u64,
    )
        ensures
            final(self)@ == old(self)@.insert(
                key,
                fresh_entry(namespace@, "sync"@, label@, 0, thread, now),
            ),
    {
        self.insert_entry(key, namespace, "sync", label, 0, thread, now);
    }

    fn insert_entry(
        &mut self,
        key: usize,
        namespace: NamespaceName,
        kind: &'static str,
        current_sql: String,
        total_steps: usize,
        thread: ThreadInfo,
        now: u64,
    )
        ensures
            final(self)@ == old(self)@.insert(
                key,
                fresh_entry(namespace@, kind@, current_sql@, total_steps, thread, now),
            ),
    {
        let entry = ActiveQuery {
            namespace,
            kind,
            thread,
            current_step: 0,
            total_steps,
            current_sql,
            started_at: now,
            last_heartbeat_at: now,
        };
        self.entries.insert(key, entry);
        assert(self@ =~= old(self)@.insert(key, entry.model()));
    }

    /// Whether there is an entry under a key.
    pub fn is_registered(&self, key: usize) -> (r: bool)
        ensures
            r == self@.contains_key(key),
    {
        self.entries.contains_key(&key)
    }

    /// Removes the entry of a query that finished, was canceled or panicked.
    pub fn remove(&mut self, key: usize)
        ensures
            final(self)@ == old(self)@.remove(key),
    {
        self.entries.remove(&key);
        assert(self@ =~= old(self)@.remove(key));
    }

    /// Records the thread that a query runs on, once it starts to execute.
    pub fn set_thread_info(&mut self, key: usize, thread: ThreadInfo)
        ensures
            final(self)@ == with_entry(
                old(self)@,
                key,
                QueryView { thread_id: thread.thread_id@, tid: thread.tid, ..old(self)@[key] },
            ),
    {
        match self.entries.remove(&key) {
            Some(entry) => {
                let updated = ActiveQuery { thread, ..entry };
                self.entries.insert(key, updated);
                assert(self@ =~= old(self)@.insert(key, updated.model()));
            },
            None => {
                assert(self@ =~= old(self)@);
            },
        }
    }

    /// Records the progress of a query and the SQL of the step that it is on.
    pub fn touch(&mut self, key: usize, current_step: usize, total_steps: usize, sql: &str, now: u64)
        requires
            old(self)@.contains_key(key) ==> truncatable(sql@),
        ensures
            final(self)@ == with_entry(
                old(self)@,
                key,
                QueryView {
                    current_step,
                    total_steps,
                    current_sql: truncated(sql@),
                    last_heartbeat_at: now,
                    ..old(self)@[key]
                },
            ),
    {
        match self.entries.remove(&key) {
            Some(entry) => {
                let updated = ActiveQuery {
                    current_step,
                    total_steps,
                    current_sql: truncate(sql),
                    last_heartbeat_at: now,
                    ..entry
                };
                self.entries.insert(key, updated);
                assert(self@ =~= old(self)@.insert(key, updated.model()));
            },
            None => {
                assert(self@ =~= old(self)@);
            },
        }
    }

    /// Records a sign of life of a query. Only the timestamp changes, never the SQL.
    pub fn heartbeat(&mut self, key: usize, now: u64)
        ensures
            final(self)@ == with_entry(
                old(self)@,
                key,
                QueryView { last_heartbeat_at: now, ..old(self)@[key] },
            ),
    {
        match self.entries.remove(&key) {
            Some(entry) => {
                let updated = ActiveQuery { last_heartbeat_at: now, ..entry };
                self.entries.insert(key, updated);
                assert(self@ =~= old(self)@.insert(key, updated.model()));
            },
            None => {
                assert(self@ =~= old(self)@);
            },
        }
    }

    /// The keys of the registry.
    fn keys(&self) -> (r: Vec<usize>)
        ensures
            r@.no_duplicates(),
            r@.to_set() == self.entries@.dom(),
    {
        let mut out: Vec<usize> = Vec::new();
        let ghost all = vstd::std_specs::iter::IteratorSpec::remaining(
            &vstd::std_specs::hash::spec_keys_iter(&self.entries),
        );
        for key in it: self.entries.keys()
            invariant
                it.seq() == all,
                all.no_duplicates(),
                all.unref().to_set() == self.entries@.dom(),
                out@ == all.unref().take(it.index() as int),
        {
            out.push(*key);
            assert(all.unref().take(it.index() + 1) =~= all.unref().take(it.index() as int).push(
                *key,
            ));
        }
        assert(out@ =~= all.unref());
        out
    }

    /// Where a key belongs among keys that are ordered by age: behind those at least as old.
    fn age_position(&self, order: &Vec<usize>, key: usize) -> (r: usize)
        requires
            self.entries@.contains_key(key),
            forall|i: int|
                0 <= i < order@.len() ==> self.entries@.contains_key(#[trigger] order@[i]),
            forall|i: int, j: int|
                0 <= i < j < order@.len() ==> self.entries@[#[trigger] order@[i]].started_at
                    <= self.entries@[#[trigger] order@[j]].started_at,
        ensures
            r <= order@.len(),
            forall|i: int|
                0 <= i < r ==> self.entries@[#[trigger] order@[i]].started_at
                    <= self.entries@[key].started_at,
            forall|i: int|
                r <= i < order@.len() ==> self.entries@[key].started_at
                    <= self.entries@[#[trigger] order@[i]].started_at,
    {
        let started = self.started_at(key);
        let mut at: usize = 0;
        while at < order.len() && self.started_at(order[at]) <= started
            invariant
                at <= order@.len(),
                started == self.entries@[key].started_at,
                forall|i: int|
                    0 <= i < order@.len() ==> self.entries@.contains_key(#[trigger] order@[i]),
                forall|i: int|
                    0 <= i < at ==> self.entries@[#[trigger] order@[i]].started_at <= started,
            decreases order@.len() - at,
        {
            at = at + 1;
        }
        at
    }

    fn started_at(&self, key: usize) -> (r: u64)
        requires
            self.entries@.contains_key(key),
        ensures
            r == self.entries@[key].started_at,
    {
        match self.entries.get(&key) {
            Some(entry) => entry.started_at,
            None => 0,
        }
    }

    /// The keys of the registry, longest running first.
    fn keys_by_age(&self) -> (r: Vec<usize>)
        ensures
            r@.no_duplicates(),
            r@.to_set() == self.entries@.dom(),
            forall|i: int, j: int|
                0 <= i < j < r@.len() ==> self.entries@[#[trigger] r@[i]].started_at
                    <= self.entries@[#[trigger] r@[j]].started_at,
    {
        let keys = self.keys();
        let mut order: Vec<usize> = Vec::new();
        let mut n: usize = 0;
        while n < keys.len()
            invariant
                n <= keys@.len(),
                keys@.no_duplicates(),
                keys@.to_set() == self.entries@.dom(),
                order@.no_duplicates(),
                forall|k: usize| order@.contains(k) <==> keys@.take(n as int).contains(k),
                forall|i: int|
                    0 <= i < order@.len() ==> self.entries@.contains_key(#[trigger] order@[i]),
                forall|i: int, j: int|
                    0 <= i < j < order@.len() ==> self.entries@[#[trigger] order@[i]].started_at
                        <= self.entries@[#[trigger] order@[j]].started_at,
            decreases keys@.len() - n,
        {
            let key = keys[n];
            assert(keys@.to_set().contains(key));
            let ghost before = order@;
            let at = self.age_position(&order, key);
            order.insert(at, key);
            proof {
                let prefix = keys@.take(n as int);
                assert(keys@.take(n + 1) =~= prefix.push(key));
                assert forall|k: usize| order@.contains(k) <==> keys@.take(n + 1).contains(k) by {
                    lemma_insert_contains(before, at as int, key, k);
                    lemma_push_contains(prefix, key, k);
                }
                assert(!prefix.contains(key)) by {
                    if prefix.contains(key) {
                        let j = choose|j: int| 0 <= j < prefix.len() && prefix[j] == key;
                        assert(keys@[j] == keys@[n as int]);
                    }
                }
                assert(!before.contains(key));
                lemma_insert_no_duplicates(before, at as int, key);
            }
            n = n + 1;
        }
        assert(keys@.take(n as int) =~= keys@);
        assert(order@.to_set() =~= keys@.to_set());
        order
    }

    /// Reports on all in-flight queries, longest running first.
    pub fn snapshot(&self, now: u64) -> (r: Vec<ActiveQuerySnapshot>)
        ensures
            is_process_list(r@, self@, now),
    {
        let order = self.keys_by_age();
        let mut out: Vec<ActiveQuerySnapshot> = Vec::new();
        let mut n: usize = 0;
        assert forall|i: int| 0 <= i < order@.len() implies self.entries@.contains_key(
            #[trigger] order@[i],
        ) by {
            assert(order@.to_set().contains(order@[i]));
        }
        while n < order.len()
            invariant
                n <= order@.len(),
                out@.len() == n,
                forall|i: int|
                    0 <= i < order@.len() ==> self.entries@.contains_key(#[trigger] order@[i]),
                forall|i: int| #![trigger out@[i]]
                    0 <= i < n ==> out@[i].conn_id == order@[i] && reports(
                        out@[i],
                        order@[i],
                        self@[order@[i]],
                        now,
                    ),
            decreases order@.len() - n,
        {
            let key = order[n];
            match self.entries.get(&key) {
                Some(entry) => {
                    out.push(snapshot_of(key, entry, now));
                },
                None => {},
            }
            n = n + 1;
        }
        proof {
            let m = self@;
            assert(m.dom() =~= self.entries@.dom());
            order@.unique_seq_to_set();
            assert forall|key: usize| #[trigger] m.contains_key(key) implies exists|i: int|
                0 <= i < out@.len() && (#[trigger] out@[i]).conn_id == key by {
                assert(order@.to_set().contains(key));
                let i = choose|i: int| 0 <= i < order@.len() && order@[i] == key;
                assert(out@[i].conn_id == key);
            }
        }
        out
    }
}

fn snapshot_of(key: usize, q: &ActiveQuery, now: u64) -> (r: ActiveQuerySnapshot)
    ensures
        reports(r, key, q.model(), now),
{
    let last_heartbeat_ms_ago = elapsed_millis(q.last_heartbeat_at, now);
    ActiveQuerySnapshot {
        conn_id: key,
        kind: q.kind,
        thread_id: q.thread.thread_id.clone(),
        tid: q.thread.tid,
        namespace: q.namespace.as_str().to_owned(),
        state: if running(q.last_heartbeat_at, now) {
            "running"
        } else {
            "blocked"
        },
        current_step: q.current_step,
        total_steps: q.total_steps,
        current_sql: q.current_sql.clone(),
        elapsed_ms: elapsed_millis(q.started_at, now),
        last_heartbeat_ms_ago,
    }
}

// Laws.

/// Removing what was registered under a free key leaves the registry as it was.
pub proof fn lemma_remove_undoes_register(m: Map<usize, QueryView>, key: usize, entry: QueryView)
    requires
        !m.contains_key(key),
    ensures
        m.insert(key, entry).remove(key) == m,
{
    assert(m.insert(key, entry).remove(key) =~= m);
}

/// An update concerns one entry: the others stay, and none appears or disappears.
pub proof fn lemma_update_is_local(
    m: Map<usize, QueryView>,
    key: usize,
    entry: QueryView,
    other: usize,
)
    requires
        other != key,
    ensures
        with_entry(m, key, entry).dom() == m.dom(),
        with_entry(m, key, entry)[other] == m[other],
{
    assert(with_entry(m, key, entry).dom() =~= m.dom());
}

/// A query is reported as running until its last heartbeat is more than a second old, and as
/// blocked from then on.
pub proof fn lemma_running_for_a_second(q: QueryView, now: u64)
    ensures
        is_running(q, now) <==> now <= q.last_heartbeat_at + 1_000_000_000,
{
}

/// A job that is reported on as it starts is running and has taken no time.
pub proof fn lemma_fresh_is_running(
    s: ActiveQuerySnapshot,
    key: usize,
    namespace: Seq<char>,
    kind: Seq<char>,
    sql: Seq<char>,
    total_steps: usize,
    thread: ThreadInfo,
    now: u64,
)
    requires
        reports(s, key, fresh_entry(namespace, kind, sql, total_steps, thread, now), now),
    ensures
        s.state@ == "running"@,
        s.elapsed_ms == 0,
        s.last_heartbeat_ms_ago == 0,
{
}

/// In a process list the elapsed times never increase.
pub proof fn lemma_longest_running_first(
    r: Seq<ActiveQuerySnapshot>,
    m: Map<usize, QueryView>,
    now: u64,
    i: int,
    j: int,
)
    requires
        is_process_list(r, m, now),
        0 <= i < j < r.len(),
    ensures
        r[i].elapsed_ms >= r[j].elapsed_ms,
{
}

// CPU time of a thread.

/// The file that holds the statistics of a thread, if it is a thread of the operating system.
pub fn thread_stat_path(tid: i32) -> (r: Option<String>)
    ensures
        match r {
            Some(path) => tid > 0 && path@ == "/proc/self/task/"@ + signed_decimal(tid as int)
                + "/stat"@,
            None => tid <= 0,
        },
{
    if tid <= 0 {
        return None;
    }
    let mut path = "/proc/self/task/".to_owned();
    push_signed(&mut path, tid as i64);
    path.append("/stat");
    Some(path)
}

/// The last index below `end` at which `s` holds `c`, or -1.
pub open spec fn last_index(s: Seq<char>, c: char, end: int) -> int
    decreases end,
{
    if end <= 0 {
        -1
    } else if s[end - 1] == c {
        end - 1
    } else {
        last_index(s, c, end - 1)
    }
}

/// The fields of a statistics line. The command name, in brackets, may itself hold brackets
/// and spaces, so the fields start behind the last closing one.
pub open spec fn stat_fields(content: Seq<char>) -> Seq<Seq<char>> {
    let close = last_index(content, ')', content.len() as int);
    if close < 0 {
        Seq::empty()
    } else {
        words(content.skip(close + 1))
    }
}

/// The field at an index, if there is one.
pub open spec fn field_at(fields: Seq<Seq<char>>, i: int) -> Option<Seq<char>> {
    if 0 <= i < fields.len() {
        Some(fields[i])
    } else {
        None
    }
}

/// The user and system time of a thread, in clock ticks, as its statistics line prints them.
pub fn cpu_time_fields(content: &str) -> (r: (Option<String>, Option<String>))
    ensures
        crate::text::opt_string(r.0) == field_at(stat_fields(content@), 11),
        crate::text::opt_string(r.1) == field_at(stat_fields(content@), 12),
{
    let chars = chars_of(content);
    let mut end: usize = chars.len();
    while end > 0 && chars[end - 1] != ')'
        invariant
            end <= chars@.len(),
            last_index(chars@, ')', chars@.len() as int) == last_index(chars@, ')', end as int),
        decreases end,
    {
        end = end - 1;
    }
    if end == 0 {
        return (None, None);
    }
    let rest = string_of(&chars, end, chars.len());
    assert(rest@ =~= content@.skip(end as int));
    let fields = split_words(rest.as_str());
    let ghost views = fields@.map_values(|w: String| w@);
    assert(views == stat_fields(content@));
    let utime = if fields.len() > 11 {
        Some(fields[11].clone())
    } else {
        None
    };
    let stime = if fields.len() > 12 {
        Some(fields[12].clone())
    } else {
        None
    };
    (utime, stime)
}

/// The clock ticks of a second: what the system reports, unless that is no positive number.
pub fn clock_ticks(reported: Option<i64>) -> (r: i64)
    ensures
        r == match reported {
            Some(v) => if v > 0 {
                v
            } else {
                100i64
            },
            None => 100i64,
        },
{
    match reported {
        Some(v) => if v > 0 {
            v
        } else {
            100
        },
        None => 100,
    }
}


// What the operations come to.

/// A text that is reported is the trimmed one if that has at most 200 bytes, and otherwise its
/// first 200 bytes with three dots behind them.
pub proof fn lemma_truncate(sql: &str, r: String)
    requires
        call_ensures(truncate, (sql,), r),
        truncatable(sql@),
    ensures
        ({
            let bytes = encode_utf8(trimmed(sql@));
            if bytes.len() <= 200 {
                r@ == trimmed(sql@)
            } else {
                encode_utf8(r@) == bytes.take(200) + encode_utf8("..."@)
            }
        }),
{
    let text = trimmed(sql@);
    let bytes = encode_utf8(text);
    if bytes.len() > 200 {
        let head = bytes.subrange(0, 200);
        encode_utf8_valid_utf8(text);
        valid_utf8_split(bytes, 200);
        decode_utf8_encode_utf8(head);
        lemma_encode_concat(decode_utf8(head), "..."@);
        assert(head =~= bytes.take(200));
    }
}

/// An update of a registered key leaves exactly the given entry under it; an update of a key that
/// is not registered changes nothing.
pub proof fn lemma_update_is_exact(m: Map<usize, QueryView>, key: usize, entry: QueryView)
    ensures
        m.contains_key(key) ==> with_entry(m, key, entry).contains_key(key) && with_entry(
            m,
            key,
            entry,
        )[key] == entry,
        !m.contains_key(key) ==> with_entry(m, key, entry) == m,
{
}

/// Whether one state of the registry differs from another at most in the entry under a key, and
/// has the same keys.
pub open spec fn differs_at(a: Map<usize, QueryView>, b: Map<usize, QueryView>, key: usize) -> bool {
    &&& a.dom() == b.dom()
    &&& forall|k: usize| #![trigger b[k]] b.contains_key(k) && k != key ==> b[k] == a[k]
}

/// A touch changes the step, the number of steps, the SQL and the heartbeat of a query. It never
/// changes when the query started, where it runs or what it is, nor any other query.
pub proof fn lemma_touch(
    registry: &mut QueryRegistry,
    key: usize,
    current_step: usize,
    total_steps: usize,
    sql: &str,
    now: u64,
)
    requires
        call_ensures(
            QueryRegistry::touch,
            (registry, key, current_step, total_steps, sql, now),
            (),
        ),
    ensures
        differs_at(old(registry)@, final(registry)@, key),
        old(registry)@.contains_key(key) ==> ({
            let before = old(registry)@[key];
            let after = final(registry)@[key];
            &&& after.started_at == before.started_at
            &&& after.namespace == before.namespace
            &&& after.kind == before.kind
            &&& after.thread_id == before.thread_id
            &&& after.tid == before.tid
            &&& after.current_step == current_step
            &&& after.total_steps == total_steps
            &&& after.current_sql == truncated(sql@)
            &&& after.last_heartbeat_at == now
        }),
{
    assert(final(registry)@.dom() =~= old(registry)@.dom());
}

/// A heartbeat changes the time of the last sign of life and nothing else.
pub proof fn lemma_heartbeat(registry: &mut QueryRegistry, key: usize, now: u64)
    requires
        call_ensures(QueryRegistry::heartbeat, (registry, key, now), ()),
    ensures
        differs_at(old(registry)@, final(registry)@, key),
        old(registry)@.contains_key(key) ==> ({
            let before = old(registry)@[key];
            let after = final(registry)@[key];
            &&& after.last_heartbeat_at == now
            &&& after.started_at == before.started_at
            &&& after.namespace == before.namespace
            &&& after.kind == before.kind
            &&& after.thread_id == before.thread_id
            &&& after.tid == before.tid
            &&& after.current_step == before.current_step
            &&& after.total_steps == before.total_steps
            &&& after.current_sql == before.current_sql
        }),
{
    assert(final(registry)@.dom() =~= old(registry)@.dom());
}

/// Recording the thread of a query changes the thread and nothing else, not even the heartbeat.
pub proof fn lemma_set_thread_info(registry: &mut QueryRegistry, key: usize, thread: ThreadInfo)
    requires
        call_ensures(QueryRegistry::set_thread_info, (registry, key, thread), ()),
    ensures
        differs_at(old(registry)@, final(registry)@, key),
        old(registry)@.contains_key(key) ==> ({
            let before = old(registry)@[key];
            let after = final(registry)@[key];
            &&& after.thread_id == thread.thread_id@
            &&& after.tid == thread.tid
            &&& after.last_heartbeat_at == before.last_heartbeat_at
            &&& after.started_at == before.started_at
            &&& after.namespace == before.namespace
            &&& after.kind == before.kind
            &&& after.current_step == before.current_step
            &&& after.total_steps == before.total_steps
            &&& after.current_sql == before.current_sql
        }),
{
    assert(final(registry)@.dom() =~= old(registry)@.dom());
}

/// A query that is registered starts now, at its first step, with the SQL of that step. A query
/// that was registered under the key before is forgotten, and the others stay.
pub proof fn lemma_register(
    registry: &mut QueryRegistry,
    key: usize,
    namespace: NamespaceName,
    program: &Program,
    thread: ThreadInfo,
    now: u64,
)
    requires
        call_ensures(QueryRegistry::register, (registry, key, namespace, program, thread, now), ()),
    ensures
        final(registry)@.dom() == old(registry)@.dom().insert(key),
        forall|k: usize| #![trigger final(registry)@[k]]
            old(registry)@.contains_key(k) && k != key ==> final(registry)@[k]
                == old(registry)@[k],
        ({
            let entry = final(registry)@[key];
            &&& entry.namespace == namespace@
            &&& entry.kind == "query"@
            &&& entry.thread_id == thread.thread_id@
            &&& entry.tid == thread.tid
            &&& entry.current_step == 0
            &&& entry.total_steps == program.steps@.len()
            &&& program.steps@.len() > 0 ==> entry.current_sql == truncated(program.steps@[0]@)
            &&& program.steps@.len() == 0 ==> entry.current_sql.len() == 0
            &&& entry.started_at == now
            &&& entry.last_heartbeat_at == now
        }),
{
    assert(program.steps.len() == program.steps@.len());
    assert(final(registry)@.dom() =~= old(registry)@.dom().insert(key));
}

/// A job that is registered starts now, shows its label, and has no steps.
pub proof fn lemma_register_job(
    registry: &mut QueryRegistry,
    key: usize,
    namespace: NamespaceName,
    label: String,
    thread: ThreadInfo,
    now: u64,
)
    requires
        call_ensures(
            QueryRegistry::register_job,
            (registry, key, namespace, label, thread, now),
            (),
        ),
    ensures
        final(registry)@.dom() == old(registry)@.dom().insert(key),
        forall|k: usize| #![trigger final(registry)@[k]]
            old(registry)@.contains_key(k) && k != key ==> final(registry)@[k]
                == old(registry)@[k],
        ({
            let entry = final(registry)@[key];
            &&& entry.namespace == namespace@
            &&& entry.kind == "sync"@
            &&& entry.thread_id == thread.thread_id@
            &&& entry.tid == thread.tid
            &&& entry.current_step == 0
            &&& entry.total_steps == 0
            &&& entry.current_sql == label@
            &&& entry.started_at == now
            &&& entry.last_heartbeat_at == now
        }),
{
    assert(final(registry)@.dom() =~= old(registry)@.dom().insert(key));
}

/// What is removed is gone, and whatever is under other keys stays.
pub proof fn lemma_remove(
    registry: &mut QueryRegistry,
    key: usize,
    other: usize,
    asked: &QueryRegistry,
    left: bool,
)
    requires
        call_ensures(QueryRegistry::remove, (registry, key), ()),
        *final(registry) == *asked,
        call_ensures(QueryRegistry::is_registered, (asked, other), left),
    ensures
        left <==> other != key && old(registry)@.contains_key(other),
        left ==> final(registry)@[other] == old(registry)@[other],
{
}

/// Whole milliseconds have passed since an instant: as many as fit between it and now, none if it
/// lies ahead.
pub open spec fn is_millis_between(then: u64, now: u64, ms: int) -> bool {
    if then <= now {
        ms * 1_000_000 <= now - then < (ms + 1) * 1_000_000
    } else {
        ms == 0
    }
}

/// A process list has one report for each query and no others. Each report repeats what is known
/// of its query: since when it runs in whole milliseconds, and how long ago its last sign of life
/// was. A query is running while that is at most a second ago, and blocked afterwards.
pub proof fn lemma_snapshot(
    registry: &QueryRegistry,
    now: u64,
    r: Vec<ActiveQuerySnapshot>,
    i: int,
)
    requires
        call_ensures(QueryRegistry::snapshot, (registry, now), r),
        0 <= i < r@.len(),
    ensures
        r@.len() == registry@.dom().len(),
        forall|j: int| 0 <= j < r@.len() && j != i ==> (#[trigger] r@[j]).conn_id != r@[i].conn_id,
        registry@.contains_key(r@[i].conn_id),
        ({
            let s = r@[i];
            let q = registry@[s.conn_id];
            &&& s.kind@ == q.kind
            &&& s.namespace@ == q.namespace
            &&& s.thread_id@ == q.thread_id
            &&& s.tid == q.tid
            &&& s.current_step == q.current_step
            &&& s.total_steps == q.total_steps
            &&& s.current_sql@ == q.current_sql
            &&& is_millis_between(q.started_at, now, s.elapsed_ms as int)
            &&& is_millis_between(q.last_heartbeat_at, now, s.last_heartbeat_ms_ago as int)
            &&& now <= q.last_heartbeat_at + 1_000_000_000 ==> s.state@ == "running"@
            &&& now > q.last_heartbeat_at + 1_000_000_000 ==> s.state@ == "blocked"@
        }),
{
    let s = r@[i];
    assert(reports(s, s.conn_id, registry@[s.conn_id], now));
    assert forall|j: int| 0 <= j < r@.len() && j != i implies (#[trigger] r@[j]).conn_id
        != r@[i].conn_id by {
        if j < i {
            assert(r@[j].conn_id != r@[i].conn_id);
        } else {
            assert(r@[i].conn_id != r@[j].conn_id);
        }
    }
}

/// Every query is in the process list, and an older query stands before a younger one.
pub proof fn lemma_older_queries_first(
    registry: &QueryRegistry,
    now: u64,
    r: Vec<ActiveQuerySnapshot>,
    older: usize,
    younger: usize,
) -> (places: (int, int))
    requires
        call_ensures(QueryRegistry::snapshot, (registry, now), r),
        registry@.contains_key(older),
        registry@.contains_key(younger),
        registry@[older].started_at < registry@[younger].started_at,
    ensures
        0 <= places.0 < places.1 < r@.len(),
        r@[places.0].conn_id == older,
        r@[places.1].conn_id == younger,
{
    assert(is_process_list(r@, registry@, now));
    let a = choose|a: int| 0 <= a < r@.len() && (#[trigger] r@[a]).conn_id == older;
    let b = choose|b: int| 0 <= b < r@.len() && (#[trigger] r@[b]).conn_id == younger;
    if b < a {
        assert(registry@[r@[b].conn_id].started_at <= registry@[r@[a].conn_id].started_at);
    }
    (a, b)
}

/// The time of a query counts from when it was registered, however often it moved on to another
/// step since.
pub proof fn lemma_elapsed_counts_from_register(
    registry: &mut QueryRegistry,
    touched: &mut QueryRegistry,
    shown: &QueryRegistry,
    key: usize,
    namespace: NamespaceName,
    program: &Program,
    thread: ThreadInfo,
    start: u64,
    step: usize,
    steps: usize,
    sql: &str,
    moved_on: u64,
    now: u64,
    r: Vec<ActiveQuerySnapshot>,
    i: int,
)
    requires
        call_ensures(QueryRegistry::register, (registry, key, namespace, program, thread, start), ()),
        *final(registry) == *old(touched),
        call_ensures(QueryRegistry::touch, (touched, key, step, steps, sql, moved_on), ()),
        *final(touched) == *shown,
        call_ensures(QueryRegistry::snapshot, (shown, now), r),
        0 <= i < r@.len(),
        r@[i].conn_id == key,
    ensures
        is_millis_between(start, now, r@[i].elapsed_ms as int),
        is_millis_between(moved_on, now, r@[i].last_heartbeat_ms_ago as int),
        r@[i].current_step == step,
        r@[i].current_sql@ == truncated(sql@),
        r@[i].namespace@ == namespace@,
{
    assert(reports(r@[i], key, shown@[key], now));
}

proof fn lemma_last_index(s: Seq<char>, c: char, end: int)
    requires
        0 <= end <= s.len(),
    ensures
        -1 <= last_index(s, c, end) < end || end == 0,
        last_index(s, c, end) >= -1,
        last_index(s, c, end) >= 0 ==> s[last_index(s, c, end)] == c,
        forall|k: int| last_index(s, c, end) < k < end && 0 <= k ==> #[trigger] s[k] != c,
    decreases end,
{
    if end > 0 && s[end - 1] != c {
        lemma_last_index(s, c, end - 1);
    }
}

/// The times of a thread are the words twelve and thirteen behind the last closing bracket of its
/// statistics line, whatever stands before it. A line without a bracket has none.
pub proof fn lemma_cpu_time_fields(
    content: &str,
    name: Seq<char>,
    rest: Seq<char>,
    r: (Option<String>, Option<String>),
)
    requires
        call_ensures(cpu_time_fields, (content,), r),
        content@ == name + seq![')'] + rest || content@ == rest,
        !rest.contains(')'),
    ensures
        content@ == name + seq![')'] + rest ==> ({
            &&& r.0 is Some <==> words(rest).len() > 11
            &&& r.1 is Some <==> words(rest).len() > 12
            &&& r.0 matches Some(user) ==> user@ == words(rest)[11]
            &&& r.1 matches Some(system) ==> system@ == words(rest)[12]
        }),
        content@ == rest ==> r.0 is None && r.1 is None,
{
    let s = content@;
    let n = s.len() as int;
    let close = last_index(s, ')', n);
    lemma_last_index(s, ')', n);
    if s == name + seq![')'] + rest {
        assert(s[name.len() as int] == ')');
        if close > name.len() {
            assert(s[close] == rest[close - name.len() - 1]);
            assert(rest.contains(')'));
        }
        assert(close == name.len());
        assert(s.skip(close + 1) =~= rest);
    }
    if s == rest {
        if close >= 0 {
            assert(rest.contains(')'));
        }
    }
}

/// A thread of the operating system has a statistics file under its own number.
pub proof fn lemma_thread_stat_path(tid: i32, r: Option<String>)
    requires
        call_ensures(thread_stat_path, (tid,), r),
    ensures
        r is Some <==> tid > 0,
        r matches Some(path) ==> exists|number: Seq<char>|
            path@ == #[trigger] ("/proc/self/task/"@ + number + "/stat"@) && is_decimal_of(
                number,
                tid as int,
            ),
{
    if tid > 0 {
        lemma_decimal(tid as nat);
    }
}

/// The clock ticks of a second are a positive number: the reported one if that is positive, and
/// 100 otherwise.
pub proof fn lemma_clock_ticks(reported: Option<i64>, r: i64)
    requires
        call_ensures(clock_ticks, (reported,), r),
    ensures
        r > 0,
        r != 100 ==> reported == Some(r),
        reported matches Some(v) ==> (v > 0 ==> r == v),
{
}


/// A text can be cut for the report unless it is longer than 200 bytes once trimmed and a character
/// lies across the cut. A text of ASCII characters always can.
pub proof fn lemma_is_truncatable(sql: &str, r: bool)
    requires
        call_ensures(is_truncatable, (sql,), r),
    ensures
        r == truncatable(sql@),
        r <==> encode_utf8(trimmed(sql@)).len() <= 200 || is_char_boundary(
            encode_utf8(trimmed(sql@)),
            200,
        ),
{
}

} // verus!
