//! The admin key that protects the management routes.

use vstd::prelude::*;

use crate::headers::{header_text, read_header};
use crate::http::{error_response, ErrorReply, Status};
use crate::text::{
    ascii_lower, ascii_lowered, eq_ignore_ascii_case, is_blank, is_white_space, is_word,
    lemma_first_words, lemma_words_concat, lemma_words_of_one, opt_str, split_words, str_eq, words,
};

verus! {

/// What a request may do once it has been let in.
#[derive(Clone, Copy, Debug, PartialEq, Eq, Structural)]
#[non_exhaustive]
pub enum Authenticated {
    /// Every operation on every namespace.
    FullAccess,
}

/// Whether an `authorization` header carries `key` as a bearer token: its first word is
/// `bearer` in any case, and its second word is the key.
pub open spec fn carries_key(header: Option<Seq<char>>, key: Seq<char>) -> bool {
    match header {
        Some(text) => {
            &&& words(text).len() >= 2
            &&& ascii_lowered(words(text)[0]) == ascii_lowered("bearer"@)
            &&& words(text)[1] == key
        },
        None => false,
    }
}

/// Checks an `authorization` header against the admin key.
pub fn accepts_bearer(header: Option<&str>, key: &str) -> (r: bool)
    ensures
        r == carries_key(opt_str(header), key@),
{
    match header {
        Some(text) => {
            let parts = split_words(text);
            let ghost views = parts@.map_values(|w: String| w@);
            assert(views == words(text@));
            if parts.len() < 2 {
                return false;
            }
            assert(views[0] == parts@[0]@ && views[1] == parts@[1]@);
            eq_ignore_ascii_case(parts[0].as_str(), "bearer") && str_eq(parts[1].as_str(), key)
        },
        None => false,
    }
}

/// Lets a request in if it carries the admin key; refuses it with `401` otherwise.
pub fn require_admin(
    headers: &hyper::HeaderMap<hyper::header::HeaderValue>,
    admin_key: &str,
) -> (r: Result<(), Status>)
    ensures
        r is Ok <==> carries_key(header_text(*headers, "authorization"@), admin_key@),
        r matches Err(status) ==> status == Status::Unauthorized,
{
    if accepts_bearer(read_header(headers, "authorization"), admin_key) {
        Ok(())
    } else {
        Err(Status::Unauthorized)
    }
}

/// How the management routes refuse a request, or `None` when they let it through.
pub open spec fn admin_refusal(
    admin_key: Option<Seq<char>>,
    header: Option<Seq<char>>,
) -> Option<(Status, Seq<char>)> {
    match admin_key {
        None => Some((Status::ServiceUnavailable, "admin not configured"@)),
        Some(key) => if carries_key(header, key) {
            None
        } else {
            Some((Status::Unauthorized, "Unauthorized"@))
        },
    }
}

/// The middleware of the management routes: refuses requests without a valid admin key,
/// and every request while no admin key is configured.
pub fn admin_auth(
    admin_key: Option<&str>,
    headers: &hyper::HeaderMap<hyper::header::HeaderValue>,
) -> (r: Result<(), ErrorReply>)
    ensures
        match r {
            Ok(()) => admin_refusal(
                opt_str(admin_key),
                header_text(*headers, "authorization"@),
            ) is None,
            Err(e) => admin_refusal(
                opt_str(admin_key),
                header_text(*headers, "authorization"@),
            ) == Some(e@),
        },
{
    match admin_key {
        None => Err(error_response(Status::ServiceUnavailable, "admin not configured")),
        Some(key) => match require_admin(headers, key) {
            Ok(()) => Ok(()),
            Err(status) => Err(error_response(status, "Unauthorized")),
        },
    }
}

/// A header opens no more than one key, and a request without the header opens none.
pub proof fn lemma_header_carries_one_key(header: Option<Seq<char>>, a: Seq<char>, b: Seq<char>)
    requires
        carries_key(header, a),
        carries_key(header, b),
    ensures
        header is Some,
        a == b,
{
}


/// Whether a text is `bearer`, each letter small or capital.
pub open spec fn is_bearer(scheme: Seq<char>) -> bool {
    scheme.len() == 6 && forall|i: int| #![trigger scheme[i]]
        0 <= i < 6 ==> scheme[i] == "bearer"@[i] || scheme[i] == "BEARER"@[i]
}

proof fn lemma_same_letter(c: char, small: char, large: char)
    requires
        ascii_lower(c) == ascii_lower(small),
        65 <= large as u32 <= 90,
        small as u32 == large as u32 + 32,
    ensures
        c == small || c == large,
{
    assert(c as u32 == small as u32 || c as u32 == large as u32);
}

proof fn lemma_is_bearer(scheme: Seq<char>)
    ensures
        ascii_lowered(scheme) == ascii_lowered("bearer"@) <==> is_bearer(scheme),
{
    reveal_strlit("bearer");
    reveal_strlit("BEARER");
    let small = "bearer"@;
    let large = "BEARER"@;
    if is_bearer(scheme) {
        assert forall|i: int| 0 <= i < 6 implies ascii_lowered(scheme)[i] == ascii_lowered(
            small,
        )[i] by {
            assert(scheme[i] == small[i] || scheme[i] == large[i]);
        }
        assert(ascii_lowered(scheme) =~= ascii_lowered(small));
    }
    if ascii_lowered(scheme) == ascii_lowered(small) {
        assert(ascii_lowered(scheme).len() == 6);
        assert forall|i: int| #![trigger scheme[i]] 0 <= i < 6 implies scheme[i] == small[i]
            || scheme[i] == large[i] by {
            assert(ascii_lowered(scheme)[i] == ascii_lower(scheme[i]));
            assert(ascii_lowered(small)[i] == ascii_lower(small[i]));
            lemma_same_letter(scheme[i], small[i], large[i]);
        }
    }
}

/// A header of two words or more carries a key exactly if its first word is `bearer`, in small or
/// capital letters, and its second word is the key. White space around the words and whatever
/// follows them do not matter.
pub proof fn lemma_bearer_carries_key(
    lead: Seq<char>,
    scheme: Seq<char>,
    gap: Seq<char>,
    presented: Seq<char>,
    tail: Seq<char>,
    key: Seq<char>,
)
    requires
        is_blank(lead),
        is_word(scheme),
        is_blank(gap),
        gap.len() > 0,
        is_word(presented),
        tail.len() > 0 ==> is_white_space(tail[0]),
    ensures
        carries_key(Some(lead + scheme + gap + presented + tail), key) <==> is_bearer(scheme)
            && presented == key,
{
    lemma_first_words(lead, scheme, gap, presented, tail);
    lemma_is_bearer(scheme);
}

/// No header, a blank one and one of a single word carry no key.
pub proof fn lemma_single_word_carries_no_key(
    lead: Seq<char>,
    word: Seq<char>,
    tail: Seq<char>,
    key: Seq<char>,
)
    requires
        is_blank(lead),
        is_word(word) || word.len() == 0,
        is_blank(tail),
    ensures
        !carries_key(None, key),
        !carries_key(Some(lead + word + tail), key),
{
    let none = Seq::<char>::empty();
    lemma_words_of_one(none);
    lemma_words_of_one(word);
    lemma_words_of_one(lead);
    lemma_words_of_one(tail);
    let left = lead + word;
    if lead.len() > 0 {
        assert(left =~= none + lead + word);
        lemma_words_concat(none, lead, word);
    } else {
        assert(left =~= word);
    }
    let whole = lead + word + tail;
    if tail.len() > 0 {
        assert(whole =~= left + tail + none);
        lemma_words_concat(left, tail, none);
    } else {
        assert(whole =~= left);
    }
    assert(words(whole).len() <= 1);
}

/// A request is let in exactly if its `authorization` header carries the admin key, and refused
/// with `401` otherwise.
pub proof fn lemma_require_admin(
    headers: &hyper::HeaderMap<hyper::header::HeaderValue>,
    admin_key: &str,
    r: Result<(), Status>,
)
    requires
        call_ensures(require_admin, (headers, admin_key), r),
    ensures
        r is Ok <==> carries_key(header_text(*headers, "authorization"@), admin_key@),
        r matches Err(status) ==> status.spec_code() == 401,
{
}

/// The management routes let a request through exactly if there is an admin key and the request
/// carries it. Without an admin key they are closed to everybody.
pub proof fn lemma_admin_auth(
    admin_key: Option<&str>,
    headers: &hyper::HeaderMap<hyper::header::HeaderValue>,
    r: Result<(), ErrorReply>,
)
    requires
        call_ensures(admin_auth, (admin_key, headers), r),
    ensures
        r is Ok <==> (admin_key matches Some(key) && carries_key(
            header_text(*headers, "authorization"@),
            key@,
        )),
        r matches Err(e) ==> if admin_key is Some {
            e.status.spec_code() == 401 && e.message@ == "Unauthorized"@
        } else {
            e.status.spec_code() == 503 && e.message@ == "admin not configured"@
        },
{
}


/// A header that is read as text is checked as `carries_key` says.
pub proof fn lemma_accepts_bearer(header: Option<&str>, key: &str, r: bool)
    requires
        call_ensures(accepts_bearer, (header, key), r),
    ensures
        r ==> header is Some,
        header matches Some(text) ==> (r <==> carries_key(Some(text@), key@)),
{
}

} // verus!
