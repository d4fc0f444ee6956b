//! Database records and what the platform reports of them.

use vstd::prelude::*;

use crate::platform::{
    client_url, connection_host, format_bytes, host_of, is_host_of_url, lemma_client_url,
    lemma_host_matches_url, size_text, MinitursoConfig,
};
use crate::text::{opt_str, opt_string};

verus! {

/// The record of a database.
#[derive(Debug)]
pub struct DatabaseRecord {
    pub id: String,
    pub namespace: String,
    pub jwt_public_key: String,
    pub jwt_private_key: String,
    pub created_at: String,
    pub last_accessed_at: Option<String>,
}

impl Clone for DatabaseRecord {
    fn clone(&self) -> (r: Self)
        ensures
            r == *self,
    {
        let last_accessed_at = match &self.last_accessed_at {
            Some(t) => Some(t.clone()),
            None => None,
        };
        DatabaseRecord {
            id: self.id.clone(),
            namespace: self.namespace.clone(),
            jwt_public_key: self.jwt_public_key.clone(),
            jwt_private_key: self.jwt_private_key.clone(),
            created_at: self.created_at.clone(),
            last_accessed_at,
        }
    }
}

/// A column of a stored row.
#[derive(Debug)]
pub enum Column {
    Text(String),
    Null,
    /// A value that is neither text nor null.
    Other,
}

/// The text of a column, if it holds one.
pub open spec fn column_text(row: Seq<Column>, i: int) -> Option<String> {
    if 0 <= i < row.len() {
        match row[i] {
            Column::Text(s) => Some(s),
            _ => None,
        }
    } else {
        None
    }
}

/// The first column that keeps a row from being a record, if there is one: the first five must
/// hold text, the sixth text or null.
pub open spec fn bad_column(row: Seq<Column>) -> Option<usize> {
    if column_text(row, 0) is None {
        Some(0)
    } else if column_text(row, 1) is None {
        Some(1)
    } else if column_text(row, 2) is None {
        Some(2)
    } else if column_text(row, 3) is None {
        Some(3)
    } else if column_text(row, 4) is None {
        Some(4)
    } else if row.len() <= 5 || row[5] is Other {
        Some(5)
    } else {
        None
    }
}

fn read_column(row: &Vec<Column>, i: usize) -> (r: Result<String, usize>)
    ensures
        match r {
            Ok(s) => column_text(row@, i as int) == Some(s),
            Err(k) => column_text(row@, i as int) is None && k == i,
        },
{
    if i < row.len() {
        match &row[i] {
            Column::Text(s) => Ok(s.clone()),
            _ => Err(i),
        }
    } else {
        Err(i)
    }
}

/// Reads a record from a stored row, or tells which column is wrong.
pub fn row_to_record(row: &Vec<Column>) -> (r: Result<DatabaseRecord, usize>)
    ensures
        match r {
            Err(i) => bad_column(row@) == Some(i),
            Ok(record) => {
                &&& bad_column(row@) is None
                &&& Some(record.id) == column_text(row@, 0)
                &&& Some(record.namespace) == column_text(row@, 1)
                &&& Some(record.jwt_public_key) == column_text(row@, 2)
                &&& Some(record.jwt_private_key) == column_text(row@, 3)
                &&& Some(record.created_at) == column_text(row@, 4)
                &&& record.last_accessed_at == column_text(row@, 5)
            },
        },
{
    let id = read_column(row, 0)?;
    let namespace = read_column(row, 1)?;
    let jwt_public_key = read_column(row, 2)?;
    let jwt_private_key = read_column(row, 3)?;
    let created_at = read_column(row, 4)?;
    if row.len() <= 5 {
        return Err(5);
    }
    let last_accessed_at = match &row[5] {
        Column::Text(s) => Some(s.clone()),
        Column::Null => None,
        Column::Other => return Err(5),
    };
    Ok(
        DatabaseRecord {
            id,
            namespace,
            jwt_public_key,
            jwt_private_key,
            created_at,
            last_accessed_at,
        },
    )
}

// Statistics.

/// A JSON value, from the `serde_json` crate.
#[verifier::external_type_specification]
#[verifier::external_body]
pub struct ExValue(serde_json::Value);

/// The members of a JSON object that are integers from 0 to `u64::MAX`, by name. A value that
/// is no object has none.
pub uninterp spec fn json_numbers(value: serde_json::Value) -> Map<Seq<char>, u64>;

/// The integer members of the JSON value that a text stands for, if it stands for one.
pub uninterp spec fn json_text_numbers(text: Seq<char>) -> Option<Map<Seq<char>, u64>>;

/// `serde_json::from_str` reads a JSON value from a text. What it finds depends on the text
/// alone.
#[verifier::external_body]
fn parse_json(text: &str) -> (r: Option<serde_json::Value>)
    ensures
        r is Some <==> json_text_numbers(text@) is Some,
        r matches Some(v) ==> json_text_numbers(text@) == Some(json_numbers(v)),
{
    serde_json::from_str(text).ok()
}

/// `Value::get` and `Value::as_u64`: a member of a JSON object, if it is there and is an
/// integer in the range of `u64`.
#[verifier::external_body]
fn json_member(value: &serde_json::Value, name: &str) -> (r: Option<u64>)
    ensures
        r is Some <==> json_numbers(*value).contains_key(name@),
        r matches Some(n) ==> json_numbers(*value)[name@] == n,
{
    value.get(name).and_then(|member| member.as_u64())
}

/// The statistics of a database.
#[derive(Clone, Copy, Debug, PartialEq, Eq, Structural)]
pub struct DatabaseStats {
    pub storage_bytes: u64,
    pub rows_written: u64,
    pub rows_read: u64,
    pub query_count: u64,
}

/// A number of a statistics file, or 0 if it is not there.
pub open spec fn stat_number(numbers: Map<Seq<char>, u64>, name: Seq<char>) -> u64 {
    if numbers.contains_key(name) {
        numbers[name]
    } else {
        0
    }
}

/// The statistics that a file with these numbers holds.
pub open spec fn stats_of(numbers: Map<Seq<char>, u64>) -> DatabaseStats {
    DatabaseStats {
        storage_bytes: stat_number(numbers, "storage_bytes_used"@),
        rows_written: stat_number(numbers, "rows_written"@),
        rows_read: stat_number(numbers, "rows_read"@),
        query_count: stat_number(numbers, "query_count"@),
    }
}

fn member_or_zero(value: &serde_json::Value, name: &str) -> (r: u64)
    ensures
        r == stat_number(json_numbers(*value), name@),
{
    match json_member(value, name) {
        Some(n) => n,
        None => 0,
    }
}

/// The statistics that a JSON value holds.
pub fn stats_from(value: &serde_json::Value) -> (r: DatabaseStats)
    ensures
        r == stats_of(json_numbers(*value)),
{
    DatabaseStats {
        storage_bytes: member_or_zero(value, "storage_bytes_used"),
        rows_written: member_or_zero(value, "rows_written"),
        rows_read: member_or_zero(value, "rows_read"),
        query_count: member_or_zero(value, "query_count"),
    }
}

/// The statistics in the content of a statistics file. There are none when the file could not
/// be read or holds no JSON.
pub open spec fn file_stats(data: Option<Seq<char>>) -> Option<DatabaseStats> {
    match data {
        None => None,
        Some(text) => match json_text_numbers(text) {
            None => None,
            Some(numbers) => Some(stats_of(numbers)),
        },
    }
}

/// Reads the statistics of a database from the content of its statistics file, if the file
/// could be read.
pub fn read_stats(data: Option<&str>) -> (r: Option<DatabaseStats>)
    ensures
        r == file_stats(opt_str(data)),
{
    match data {
        None => None,
        Some(text) => match parse_json(text) {
            None => None,
            Some(value) => Some(stats_from(&value)),
        },
    }
}

/// The texts of strings.
pub open spec fn texts(strings: Seq<String>) -> Seq<Seq<char>> {
    strings.map_values(|s: String| s@)
}

/// The path of a statistics file below the data directory.
pub open spec fn stats_file(namespace: Seq<char>) -> Seq<Seq<char>> {
    seq!["dbs"@, namespace, "stats.json"@]
}

/// The path of a statistics file below the data directory.
pub fn stats_path(namespace: &str) -> (r: Vec<String>)
    ensures
        texts(r@) == stats_file(namespace@),
{
    let mut path: Vec<String> = Vec::new();
    path.push("dbs".to_owned());
    path.push(namespace.to_owned());
    path.push("stats.json".to_owned());
    assert(texts(path@) =~= stats_file(namespace@));
    path
}

/// The path of a database file below the data directory.
pub open spec fn database_file(namespace: Seq<char>) -> Seq<Seq<char>> {
    seq!["dbs"@, namespace, "data"@]
}

/// The path of a database file below the data directory.
pub fn database_path(namespace: &str) -> (r: Vec<String>)
    ensures
        texts(r@) == database_file(namespace@),
{
    let mut path: Vec<String> = Vec::new();
    path.push("dbs".to_owned());
    path.push(namespace.to_owned());
    path.push("data".to_owned());
    assert(texts(path@) =~= database_file(namespace@));
    path
}

// Reports.

/// What the platform reports of a database.
#[derive(Debug)]
pub struct DatabaseView {
    pub id: String,
    pub namespace: String,
    pub created_at: String,
    pub last_accessed_at: Option<String>,
    pub stats: DatabaseStats,
    /// The size for human readers, unless there are no statistics.
    pub storage_bytes_formatted: Option<String>,
    pub host: String,
    pub connection_url: String,
}

/// Whether `view` reports a record with these statistics. Without statistics all numbers are 0
/// and no size is printed.
pub open spec fn describes(
    view: DatabaseView,
    config: MinitursoConfig,
    stats: Option<DatabaseStats>,
    record: DatabaseRecord,
) -> bool {
    &&& view.id == record.id
    &&& view.namespace == record.namespace
    &&& view.created_at == record.created_at
    &&& view.last_accessed_at == record.last_accessed_at
    &&& view.stats == match stats {
        Some(s) => s,
        None => DatabaseStats { storage_bytes: 0, rows_written: 0, rows_read: 0, query_count: 0 },
    }
    &&& opt_string(view.storage_bytes_formatted) == match stats {
        Some(s) => Some(size_text(s.storage_bytes)),
        None => None,
    }
    &&& view.host@ == host_of(client_url(config))
    &&& view.connection_url@ == client_url(config)
}

/// Reports a database. The keys of the record stay out of the report.
pub fn enrich_database(
    config: &MinitursoConfig,
    stats: Option<DatabaseStats>,
    record: &DatabaseRecord,
) -> (r: DatabaseView)
    ensures
        describes(r, *config, stats, *record),
{
    let connection_url = config.connection_url();
    let host = connection_host(connection_url.as_str());
    let record = record.clone();
    let (numbers, storage_bytes_formatted) = match stats {
        Some(s) => (s, Some(format_bytes(s.storage_bytes))),
        None => (
            DatabaseStats { storage_bytes: 0, rows_written: 0, rows_read: 0, query_count: 0 },
            None,
        ),
    };
    DatabaseView {
        id: record.id,
        namespace: record.namespace,
        created_at: record.created_at,
        last_accessed_at: record.last_accessed_at,
        stats: numbers,
        storage_bytes_formatted,
        host,
        connection_url,
    }
}


// Laws.

/// The columns of a record, in the order in which they are stored.
pub open spec fn columns_of(record: DatabaseRecord) -> Seq<Column> {
    seq![
        Column::Text(record.id),
        Column::Text(record.namespace),
        Column::Text(record.jwt_public_key),
        Column::Text(record.jwt_private_key),
        Column::Text(record.created_at),
        match record.last_accessed_at {
            Some(t) => Column::Text(t),
            None => Column::Null,
        },
    ]
}

/// A record that was stored is read back as it was.
pub proof fn lemma_stored_record_is_read(
    record: DatabaseRecord,
    row: &Vec<Column>,
    r: Result<DatabaseRecord, usize>,
)
    requires
        call_ensures(row_to_record, (row,), r),
        row@ == columns_of(record),
    ensures
        r == Ok::<DatabaseRecord, usize>(record),
{
}

/// A row is a record exactly if it starts with five texts, and then a text or null. The error
/// names the first column for which that fails.
pub proof fn lemma_row_to_record(row: &Vec<Column>, r: Result<DatabaseRecord, usize>)
    requires
        call_ensures(row_to_record, (row,), r),
    ensures
        r is Ok <==> row@.len() >= 6 && (forall|i: int|
            0 <= i < 5 ==> (#[trigger] row@[i]) is Text) && row@[5] !is Other,
        r matches Ok(record) ==> row@.take(6) == columns_of(record),
        r matches Err(i) ==> i <= 5 && i <= row@.len() && (forall|k: int|
            0 <= k < i ==> (#[trigger] row@[k]) is Text) && (i < row@.len() ==> row@[i as int] !is Text),
{
    if let Ok(record) = r {
        assert(row@[0] is Text && row@[1] is Text && row@[2] is Text && row@[3] is Text
            && row@[4] is Text);
        assert(row@.take(6) =~= columns_of(record));
    }
    if row@.len() >= 6 && (forall|i: int| 0 <= i < 5 ==> (#[trigger] row@[i]) is Text)
        && row@[5] !is Other {
        assert(row@[0] is Text && row@[1] is Text && row@[2] is Text && row@[3] is Text
            && row@[4] is Text);
    }
}

/// The statistics of a file are its numbers of the same names, and 0 for those that it does not
/// hold. There are none without a file or without JSON in it.
pub proof fn lemma_read_stats(data: Option<&str>, r: Option<DatabaseStats>)
    requires
        call_ensures(read_stats, (data,), r),
    ensures
        r is Some <==> (data matches Some(text) && json_text_numbers(text@) is Some),
        r matches Some(stats) ==> ({
            let numbers = json_text_numbers(data->0@)->0;
            let held = |name: Seq<char>, n: u64|
                if numbers.contains_key(name) {
                    n == numbers[name]
                } else {
                    n == 0
                };
            &&& held("storage_bytes_used"@, stats.storage_bytes)
            &&& held("rows_written"@, stats.rows_written)
            &&& held("rows_read"@, stats.rows_read)
            &&& held("query_count"@, stats.query_count)
        }),
{
}

/// A namespace has a directory of its own below the data directory, with its database and its
/// statistics in two files. Different namespaces share neither.
pub proof fn lemma_files_of_namespaces(
    a: &str,
    b: &str,
    data: Vec<String>,
    stats: Vec<String>,
    other: Vec<String>,
)
    requires
        call_ensures(database_path, (a,), data),
        call_ensures(stats_path, (a,), stats),
        call_ensures(database_path, (b,), other),
    ensures
        texts(data@).len() == 3,
        texts(stats@).len() == 3,
        texts(data@).take(2) == seq!["dbs"@, a@],
        texts(stats@).take(2) == seq!["dbs"@, a@],
        texts(data@)[2] == "data"@,
        texts(stats@)[2] == "stats.json"@,
        texts(data@) == texts(other@) <==> a@ == b@,
        texts(data@) != texts(stats@),
{
    reveal_strlit("data");
    reveal_strlit("stats.json");
    assert(texts(data@).take(2) =~= seq!["dbs"@, a@]);
    assert(texts(stats@).take(2) =~= seq!["dbs"@, a@]);
    assert("data"@.len() != "stats.json"@.len());
    assert(texts(data@)[1] == a@);
    assert(texts(other@)[1] == b@);
}

/// A report shows the record under its own id and namespace, the statistics as they are, and the
/// address with its host. A size is printed exactly if there are statistics, and then it is the
/// printed form of the size that the report shows.
pub proof fn lemma_report(
    config: &MinitursoConfig,
    stats: Option<DatabaseStats>,
    record: &DatabaseRecord,
    view: DatabaseView,
)
    requires
        call_ensures(enrich_database, (config, stats, record), view),
    ensures
        describes(view, *config, stats, *record),
        view.id@ == record.id@,
        view.namespace@ == record.namespace@,
        view.created_at@ == record.created_at@,
        view.last_accessed_at == record.last_accessed_at,
        stats matches Some(s) ==> view.stats == s,
        stats is None ==> view.stats.storage_bytes == 0 && view.stats.rows_written == 0
            && view.stats.rows_read == 0 && view.stats.query_count == 0,
        view.storage_bytes_formatted is Some <==> stats is Some,
        view.storage_bytes_formatted matches Some(text) ==> text@ == size_text(
            view.stats.storage_bytes,
        ),
        is_host_of_url(view.host@, view.connection_url@),
        config.connection_url matches Some(url) ==> view.connection_url@ == url@,
        config.connection_url is None ==> (config.scheme@ + "://"@ + config.host@).is_prefix_of(
            view.connection_url@,
        ),
{
    lemma_host_matches_url(*config);
    lemma_client_url(*config);
    if config.connection_url is None {
        let base = config.scheme@ + "://"@ + config.host@;
        assert(base =~= view.connection_url@.subrange(0, base.len() as int));
    }
}


/// The same of a JSON value.
pub proof fn lemma_stats_from(value: &serde_json::Value, stats: DatabaseStats)
    requires
        call_ensures(stats_from, (value,), stats),
    ensures
        ({
            let numbers = json_numbers(*value);
            let held = |name: Seq<char>, n: u64|
                if numbers.contains_key(name) {
                    n == numbers[name]
                } else {
                    n == 0
                };
            &&& held("storage_bytes_used"@, stats.storage_bytes)
            &&& held("rows_written"@, stats.rows_written)
            &&& held("rows_read"@, stats.rows_read)
            &&& held("query_count"@, stats.query_count)
        }),
{
}

} // verus!
