//! The admin shell: a prompt that sends SQL to a remote namespace and prints the rows.

use vstd::prelude::*;

use crate::namespace::NamespaceName;
use crate::text::{
    is_signed_decimal_of, joined, lemma_signed_decimal, push_signed, signed_decimal,
};

verus! {

/// A client of the remote shell service.
pub struct AdminShellClient {
    remote_url: String,
    auth: Option<String>,
}

impl AdminShellClient {
    /// The address of the remote service.
    pub closed spec fn url(&self) -> Seq<char> {
        self.remote_url@
    }

    /// The credentials to present, if any.
    pub closed spec fn credentials(&self) -> Option<Seq<char>> {
        crate::text::opt_string(self.auth)
    }

    pub fn new(remote_url: String, auth: Option<String>) -> (r: Self)
        ensures
            r.url() == remote_url@,
            r.credentials() == crate::text::opt_string(auth),
    {
        Self { remote_url, auth }
    }

    /// The address to connect to.
    pub fn remote_url(&self) -> (r: &str)
        ensures
            r@ == self.url(),
    {
        self.remote_url.as_str()
    }

    /// The request metadata of a shell session: the namespace, and the credentials under
    /// the `basic` scheme when there are any.
    pub fn request_metadata(&self, namespace: &NamespaceName) -> (r: Vec<(String, String)>)
        ensures
            r@.map_values(|e: (String, String)| (e.0@, e.1@)) == match self.credentials() {
                Some(auth) => seq![
                    ("x-namespace"@, namespace@),
                    ("authorization"@, "basic "@ + auth),
                ],
                None => seq![("x-namespace"@, namespace@)],
            },
    {
        let mut out: Vec<(String, String)> = Vec::new();
        out.push(("x-namespace".to_owned(), namespace.as_str().to_owned()));
        match &self.auth {
            Some(auth) => {
                let mut value = "basic ".to_owned();
                value.append(auth.as_str());
                out.push(("authorization".to_owned(), value));
            },
            None => {},
        }
        assert(out@.map_values(|e: (String, String)| (e.0@, e.1@)) =~= match self.credentials() {
            Some(auth) => seq![("x-namespace"@, namespace@), ("authorization"@, "basic "@ + auth)],
            None => seq![("x-namespace"@, namespace@)],
        });
        out
    }
}

/// A value of a result row. A real carries its printed form.
#[derive(Debug)]
pub enum ShellValue {
    Null,
    Real(String),
    Integer(i64),
    Text(String),
    Blob(Vec<u8>),
}

/// The rows of a reply.
#[derive(Debug)]
pub struct Rows {
    pub rows: Vec<Vec<Option<ShellValue>>>,
}

/// A lower-case hexadecimal digit.
pub open spec fn hex_digit(d: int) -> char {
    if d < 10 {
        (48 + d) as char
    } else {
        (87 + d) as char
    }
}

/// A byte in hexadecimal, without a leading zero.
pub open spec fn hex(b: u8) -> Seq<char> {
    if b < 16 {
        seq![hex_digit(b as int)]
    } else {
        seq![hex_digit(b as int / 16), hex_digit(b as int % 16)]
    }
}

/// The bytes of a blob in hexadecimal, one after the other.
pub open spec fn blob_text(b: Seq<u8>) -> Seq<char>
    decreases b.len(),
{
    if b.len() == 0 {
        Seq::empty()
    } else {
        blob_text(b.drop_last()) + hex(b.last())
    }
}

/// A value as the shell prints it.
pub open spec fn value_text(v: ShellValue) -> Seq<char> {
    match v {
        ShellValue::Null => "null"@,
        ShellValue::Real(s) => s@,
        ShellValue::Integer(i) => signed_decimal(i as int),
        ShellValue::Text(s) => s@,
        ShellValue::Blob(b) => blob_text(b@),
    }
}

/// A row as the shell prints it: its values, separated by a comma and a space.
pub open spec fn row_text(row: Seq<Option<ShellValue>>) -> Seq<char>
    decreases row.len(),
{
    if row.len() == 0 {
        Seq::empty()
    } else if row.len() == 1 {
        value_text(row[0]->0)
    } else {
        row_text(row.drop_last()) + ", "@ + value_text(row.last()->0)
    }
}

/// Rows as the shell prints them: each row ends with a line feed.
pub open spec fn rows_text(rows: Seq<Vec<Option<ShellValue>>>) -> Seq<char>
    decreases rows.len(),
{
    if rows.len() == 0 {
        Seq::empty()
    } else {
        rows_text(rows.drop_last()) + row_text(rows.last()@) + "\n"@
    }
}

impl Rows {
    /// Every value of every row is there.
    pub open spec fn complete(&self) -> bool {
        forall|i: int, j: int|
            0 <= i < self.rows@.len() && 0 <= j < self.rows@[i]@.len() ==> (
            #[trigger] self.rows@[i]@[j]) is Some
    }
}

fn push_hex(out: &mut String, b: u8)
    ensures
        final(out)@ == old(out)@ + hex(b),
{
    if b >= 16 {
        let hi: u8 = b / 16;
        out.push(if hi < 10 { (48 + hi) as char } else { (87 + hi) as char });
    }
    let lo: u8 = b % 16;
    out.push(if lo < 10 { (48 + lo) as char } else { (87 + lo) as char });
    assert(out@ =~= old(out)@ + hex(b));
}

fn push_blob(out: &mut String, b: &Vec<u8>)
    ensures
        final(out)@ == old(out)@ + blob_text(b@),
{
    let mut i: usize = 0;
    assert(out@ + blob_text(b@.take(0)) =~= out@);
    while i < b.len()
        invariant
            i <= b@.len(),
            out@ == old(out)@ + blob_text(b@.take(i as int)),
        decreases b@.len() - i,
    {
        push_hex(out, b[i]);
        assert(b@.take(i + 1).drop_last() =~= b@.take(i as int));
        assert(out@ =~= old(out)@ + blob_text(b@.take(i + 1)));
        i = i + 1;
    }
    assert(b@.take(b@.len() as int) =~= b@);
}

fn push_value(out: &mut String, v: &ShellValue)
    ensures
        final(out)@ == old(out)@ + value_text(*v),
{
    match v {
        ShellValue::Null => out.append("null"),
        ShellValue::Real(s) => out.append(s.as_str()),
        ShellValue::Integer(i) => push_signed(out, *i),
        ShellValue::Text(s) => out.append(s.as_str()),
        ShellValue::Blob(b) => push_blob(out, b),
    }
}

fn push_row(out: &mut String, row: &Vec<Option<ShellValue>>)
    requires
        forall|j: int| 0 <= j < row@.len() ==> (#[trigger] row@[j]) is Some,
    ensures
        final(out)@ == old(out)@ + row_text(row@),
{
    let mut i: usize = 0;
    assert(out@ + row_text(row@.take(0)) =~= out@);
    while i < row.len()
        invariant
            forall|j: int| 0 <= j < row@.len() ==> (#[trigger] row@[j]) is Some,
            i <= row@.len(),
            out@ == old(out)@ + row_text(row@.take(i as int)),
        decreases row@.len() - i,
    {
        if i > 0 {
            out.append(", ");
        }
        match &row[i] {
            Some(v) => push_value(out, v),
            None => {},
        }
        assert(row@.take(i + 1).drop_last() =~= row@.take(i as int));
        assert(out@ =~= old(out)@ + row_text(row@.take(i + 1)));
        i = i + 1;
    }
    assert(row@.take(row@.len() as int) =~= row@);
}

/// Prints rows for the shell.
pub fn format_rows(rows: &Rows) -> (r: String)
    requires
        rows.complete(),
    ensures
        r@ == rows_text(rows.rows@),
{
    let mut out = String::new();
    let mut i: usize = 0;
    assert(rows_text(rows.rows@.take(0)) =~= Seq::empty());
    while i < rows.rows.len()
        invariant
            rows.complete(),
            i <= rows.rows@.len(),
            out@ == rows_text(rows.rows@.take(i as int)),
        decreases rows.rows@.len() - i,
    {
        assert forall|j: int| 0 <= j < rows.rows@[i as int]@.len() implies (
        #[trigger] rows.rows@[i as int]@[j]) is Some by {}
        push_row(&mut out, &rows.rows[i]);
        out.append("\n");
        assert(rows.rows@.take(i + 1).drop_last() =~= rows.rows@.take(i as int));
        i = i + 1;
    }
    assert(rows.rows@.take(rows.rows@.len() as int) =~= rows.rows@);
    out
}

/// What happened at the prompt or on the reply stream.
#[derive(Debug)]
pub enum ShellEvent {
    /// A line was read from the prompt.
    Line(String),
    /// The prompt failed.
    PromptFailed(String),
    /// The server answered with rows.
    Rows(Rows),
    /// The server answered that the query failed.
    QueryFailed(String),
    /// The call failed.
    RpcFailed(String),
    /// The stream ended, or the server sent an empty answer.
    NoReply,
}

/// What the shell does next.
#[derive(Debug)]
pub enum ShellAction {
    /// Sends a query and waits for the reply.
    Send(String),
    /// Prints a line and prompts again.
    Print(String),
    /// Prints a line and quits.
    PrintAndQuit(String),
    /// Quits.
    Quit,
}

/// The answer of the shell to an event.
pub open spec fn shell_answers(event: ShellEvent, action: ShellAction) -> bool {
    match event {
        ShellEvent::Line(query) => action matches ShellAction::Send(q) && q@ == query@,
        ShellEvent::PromptFailed(e) => action matches ShellAction::Print(s) && s@ == "error: "@
            + e@,
        ShellEvent::Rows(rows) => action matches ShellAction::Print(s) && s@ == rows_text(
            rows.rows@,
        ),
        ShellEvent::QueryFailed(e) => action matches ShellAction::Print(s) && s@
            == "query error: "@ + e@,
        ShellEvent::RpcFailed(e) => action matches ShellAction::PrintAndQuit(s) && s@
            == "rpc error: "@ + e@,
        ShellEvent::NoReply => action is Quit,
    }
}

/// One turn of the shell's loop.
pub fn shell_step(event: ShellEvent) -> (r: ShellAction)
    requires
        event matches ShellEvent::Rows(rows) ==> rows.complete(),
    ensures
        shell_answers(event, r),
{
    match event {
        ShellEvent::Line(query) => ShellAction::Send(query),
        ShellEvent::PromptFailed(e) => ShellAction::Print(joined("error: ", e.as_str())),
        ShellEvent::Rows(rows) => ShellAction::Print(format_rows(&rows)),
        ShellEvent::QueryFailed(e) => ShellAction::Print(joined("query error: ", e.as_str())),
        ShellEvent::RpcFailed(e) => ShellAction::PrintAndQuit(joined("rpc error: ", e.as_str())),
        ShellEvent::NoReply => ShellAction::Quit,
    }
}


// Laws.

/// Rows are printed one after the other, each on a line of its own; without rows there is nothing.
pub proof fn lemma_one_row_more(
    less: &Rows,
    more: &Rows,
    row: Vec<Option<ShellValue>>,
    a: String,
    b: String,
)
    requires
        call_ensures(format_rows, (less,), a),
        call_ensures(format_rows, (more,), b),
        more.rows@ == less.rows@.push(row),
    ensures
        b@ == a@ + row_text(row@) + "\n"@,
        less.rows@.len() == 0 ==> a@.len() == 0,
{
    assert(more.rows@.drop_last() =~= less.rows@);
}

/// The values of a row are separated by a comma and a space.
pub proof fn lemma_one_value_more(row: Seq<Option<ShellValue>>, v: ShellValue)
    ensures
        row.len() == 0 ==> row_text(row).len() == 0 && row_text(row.push(Some(v))) == value_text(v),
        row.len() > 0 ==> row_text(row.push(Some(v))) == row_text(row) + ", "@ + value_text(v),
{
    assert(row.push(Some(v)).drop_last() =~= row);
}

/// Whether a text is a byte in hexadecimal: one digit below 16, two from there on.
pub open spec fn is_hex_of(text: Seq<char>, b: u8) -> bool {
    let digits = "0123456789abcdef"@;
    if b < 16 {
        text.len() == 1 && text[0] == digits[b as int]
    } else {
        text.len() == 2 && text[0] == digits[b as int / 16] && text[1] == digits[b as int % 16]
    }
}

proof fn lemma_hex_digit(d: int)
    requires
        0 <= d < 16,
    ensures
        hex_digit(d) == "0123456789abcdef"@[d],
{
    reveal_strlit("0123456789abcdef");
    let digits = "0123456789abcdef"@;
    assert(digits[d] as u32 == if d < 10 { 48 + d } else { 87 + d });
    assert(hex_digit(d) as u32 == digits[d] as u32);
}

/// Texts are printed as they are, integers in decimal, a missing value as `null`. A blob is printed
/// byte by byte in hexadecimal.
pub proof fn lemma_value_text(v: ShellValue, bytes: Seq<u8>, b: u8)
    ensures
        v is Null ==> value_text(v) == "null"@,
        v matches ShellValue::Text(s) ==> value_text(v) == s@,
        v matches ShellValue::Real(s) ==> value_text(v) == s@,
        v matches ShellValue::Integer(i) ==> is_signed_decimal_of(value_text(v), i as int),
        v matches ShellValue::Blob(x) ==> (x@ == bytes ==> value_text(v) == blob_text(bytes)),
        bytes.len() == 0 ==> blob_text(bytes).len() == 0,
        blob_text(bytes).is_prefix_of(blob_text(bytes.push(b))),
        is_hex_of(blob_text(bytes.push(b)).skip(blob_text(bytes).len() as int), b),
{
    if let ShellValue::Integer(i) = v {
        lemma_signed_decimal(i as int);
    }
    assert(bytes.push(b).drop_last() =~= bytes);
    let text = blob_text(bytes);
    assert(text =~= blob_text(bytes.push(b)).subrange(0, text.len() as int));
    assert(blob_text(bytes.push(b)).skip(text.len() as int) =~= hex(b));
    lemma_hex_digit(b as int % 16);
    lemma_hex_digit(b as int / 16);
}

/// A line is sent as it was typed. Rows are printed as they are formatted. A failure is printed,
/// with its text behind a label that tells failures apart. The shell prompts again after all of
/// these but a failed call, and quits when nothing is answered.
pub proof fn lemma_shell_step(
    event: ShellEvent,
    r: ShellAction,
    rows: &Rows,
    text: String,
)
    requires
        call_ensures(shell_step, (event,), r),
        call_ensures(format_rows, (rows,), text),
    ensures
        event matches ShellEvent::Line(query) ==> (r matches ShellAction::Send(q) && q@ == query@),
        event matches ShellEvent::Rows(shown) ==> (shown == *rows ==> (r matches ShellAction::Print(
            s,
        ) && s@ == text@)),
        event matches ShellEvent::PromptFailed(e) ==> (r matches ShellAction::Print(s) && s@
            == "error: "@ + e@),
        event matches ShellEvent::QueryFailed(e) ==> (r matches ShellAction::Print(s) && s@
            == "query error: "@ + e@),
        event matches ShellEvent::RpcFailed(e) ==> (r matches ShellAction::PrintAndQuit(s) && s@
            == "rpc error: "@ + e@),
        r is Quit <==> event is NoReply,
        r is PrintAndQuit <==> event is RpcFailed,
        r is Send <==> event is Line,
{
}

/// A session names its namespace, and presents the credentials that its client was made with, if
/// there are any, to the address that it was made with.
pub proof fn lemma_request_metadata(
    remote_url: String,
    auth: Option<String>,
    client: &AdminShellClient,
    url: &str,
    namespace: &NamespaceName,
    r: Vec<(String, String)>,
)
    requires
        call_ensures(AdminShellClient::new, (remote_url, auth), *client),
        call_ensures(AdminShellClient::remote_url, (client,), url),
        call_ensures(AdminShellClient::request_metadata, (client, namespace), r),
    ensures
        url@ == remote_url@,
        r@.len() == if auth is Some {
            2int
        } else {
            1int
        },
        r@[0].0@ == "x-namespace"@,
        r@[0].1@ == namespace@,
        auth matches Some(a) ==> r@[1].0@ == "authorization"@ && r@[1].1@ == "basic "@ + a@,
{
    let views = r@.map_values(|e: (String, String)| (e.0@, e.1@));
    assert(views.len() == r@.len());
    assert(views[0] == (r@[0].0@, r@[0].1@));
    if auth is Some {
        assert(views[1] == (r@[1].0@, r@[1].1@));
    }
}

} // verus!
