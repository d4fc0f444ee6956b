//! Status codes and error replies of the HTTP surface.

use vstd::prelude::*;

use crate::encoding::{json_string, lemma_json_string_unambiguous, to_json_string};

verus! {

/// The status codes that the handlers answer with.
#[derive(Clone, Copy, Debug, PartialEq, Eq, Structural)]
pub enum Status {
    Success,
    Created,
    BadRequest,
    Unauthorized,
    NotFound,
    Conflict,
    InternalServerError,
    ServiceUnavailable,
}

impl Status {
    /// The numeric code of a status.
    pub open spec fn spec_code(self) -> u16 {
        match self {
            Status::Success => 200,
            Status::Created => 201,
            Status::BadRequest => 400,
            Status::Unauthorized => 401,
            Status::NotFound => 404,
            Status::Conflict => 409,
            Status::InternalServerError => 500,
            Status::ServiceUnavailable => 503,
        }
    }

    /// The numeric code of the status.
    pub fn code(self) -> (r: u16)
        ensures
            r == self.spec_code(),
    {
        match self {
            Status::Success => 200,
            Status::Created => 201,
            Status::BadRequest => 400,
            Status::Unauthorized => 401,
            Status::NotFound => 404,
            Status::Conflict => 409,
            Status::InternalServerError => 500,
            Status::ServiceUnavailable => 503,
        }
    }
}

/// A reply with the body `{"error": message}`.
#[derive(Debug)]
pub struct ErrorReply {
    pub status: Status,
    pub message: String,
}

impl View for ErrorReply {
    type V = (Status, Seq<char>);

    open spec fn view(&self) -> (Status, Seq<char>) {
        (self.status, self.message@)
    }
}

/// The body `{"error": message}`.
pub open spec fn error_body(message: Seq<char>) -> Seq<char> {
    "{\"error\":"@ + json_string(message) + "}"@
}

/// Writes the body of an error reply.
pub fn write_error_body(message: &str) -> (r: String)
    ensures
        r@ == error_body(message@),
{
    let mut body = "{\"error\":".to_owned();
    body.append(to_json_string(message).as_str());
    body.append("}");
    body
}

/// The error reply with a status and a message.
pub fn error_response(status: Status, message: &str) -> (r: ErrorReply)
    ensures
        r@ == (status, message@),
{
    ErrorReply { status, message: message.to_owned() }
}


/// The codes of replies that report success start with 2, those that blame the request with 4,
/// and those that blame the server with 5. No two statuses have the same code.
pub proof fn lemma_status_codes(s: Status, t: Status, code: u16, other: u16)
    requires
        call_ensures(Status::code, (s,), code),
        call_ensures(Status::code, (t,), other),
    ensures
        code == other ==> s == t,
        code / 100 == 2 <==> s == Status::Success || s == Status::Created,
        code / 100 == 4 <==> s == Status::BadRequest || s == Status::Unauthorized || s
            == Status::NotFound || s == Status::Conflict,
        code / 100 == 5 <==> s == Status::InternalServerError || s == Status::ServiceUnavailable,
{
}

/// An error reply tells its message: it is a JSON object with that one member, and two bodies are
/// the same only if the messages are.
pub proof fn lemma_error_body_tells_message(a: &str, b: &str, body: String, other: String)
    requires
        call_ensures(write_error_body, (a,), body),
        call_ensures(write_error_body, (b,), other),
    ensures
        body@ == "{\"error\":"@ + json_string(a@) + "}"@,
        body@ == other@ ==> a@ == b@,
{
    let p = "{\"error\":"@;
    assert(body@.skip(p.len() as int) =~= json_string(a@) + "}"@);
    assert(other@.skip(p.len() as int) =~= json_string(b@) + "}"@);
    if body@ == other@ {
        lemma_json_string_unambiguous(a@, b@, "}"@, "}"@);
    }
}

/// An error reply carries the status and the message that it was made with.
pub proof fn lemma_error_response(status: Status, message: &str, r: ErrorReply)
    requires
        call_ensures(error_response, (status, message), r),
    ensures
        r.status == status,
        r.message@ == message@,
{
}

} // verus!
