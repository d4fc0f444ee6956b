//! Database values as JSON.

use vstd::prelude::*;

use crate::encoding::{
    base64_standard, encode_base64_standard, lemma_base64_standard_injective,
};
use crate::error::{Error, ErrorKind};

verus! {

/// A value of a database.
#[derive(Debug)]
pub enum DbValue {
    Null,
    Integer(i64),
    /// A floating-point number, by its bits.
    Real(u64),
    Text(String),
    Blob(Vec<u8>),
}

/// A value as JSON.
#[derive(Debug)]
pub enum JsonValue {
    Null,
    Integer(i64),
    /// A finite floating-point number, by its bits.
    Real(u64),
    Text(String),
    /// The object `{"base64": text}`.
    Base64(String),
}

/// The bits of a floating-point number below the exponent.
pub const FRACTION_SIZE: u64 = 0x10_0000_0000_0000;

/// Whether bits stand for a finite number: their exponent is not the largest one.
pub open spec fn is_finite(bits: u64) -> bool {
    bits / FRACTION_SIZE % 2048 != 2047
}

/// The text of a floating-point number that is not finite.
pub open spec fn non_finite_text(bits: u64) -> Seq<char> {
    if bits % FRACTION_SIZE != 0 {
        "NaN"@
    } else if bits / FRACTION_SIZE < 2048 {
        "inf"@
    } else {
        "-inf"@
    }
}

/// Whether `r` is what becomes of a value. Blobs are written in base64, and numbers that are not
/// finite have no JSON form.
pub open spec fn is_json_of(value: DbValue, r: Result<JsonValue, Error>) -> bool {
    match value {
        DbValue::Null => r == Ok::<JsonValue, Error>(JsonValue::Null),
        DbValue::Integer(i) => r == Ok::<JsonValue, Error>(JsonValue::Integer(i)),
        DbValue::Real(bits) => if is_finite(bits) {
            r == Ok::<JsonValue, Error>(JsonValue::Real(bits))
        } else {
            r matches Err(e) && e@ == (
                ErrorKind::DbValueError,
                "Cannot to convert database value `"@ + non_finite_text(bits)
                    + "` to a JSON number"@,
            )
        },
        DbValue::Text(s) => r == Ok::<JsonValue, Error>(JsonValue::Text(s)),
        DbValue::Blob(b) => r matches Ok(JsonValue::Base64(text)) && text@ == base64_standard(b@),
    }
}

impl DbValue {
    /// The value as JSON.
    pub fn to_json(self) -> (r: Result<JsonValue, Error>)
        ensures
            is_json_of(self, r),
    {
        match self {
            DbValue::Null => Ok(JsonValue::Null),
            DbValue::Integer(i) => Ok(JsonValue::Integer(i)),
            DbValue::Real(bits) => {
                if bits / FRACTION_SIZE % 2048 != 2047 {
                    return Ok(JsonValue::Real(bits));
                }
                let text = if bits % FRACTION_SIZE != 0 {
                    "NaN"
                } else if bits / FRACTION_SIZE < 2048 {
                    "inf"
                } else {
                    "-inf"
                };
                let mut message = "Cannot to convert database value `".to_owned();
                message.append(text);
                message.append("` to a JSON number");
                Err(Error { kind: ErrorKind::DbValueError, message })
            },
            DbValue::Text(s) => Ok(JsonValue::Text(s)),
            DbValue::Blob(b) => Ok(JsonValue::Base64(encode_base64_standard(b.as_slice()))),
        }
    }
}

/// Only a number that is not finite has no JSON form.
pub proof fn lemma_json_fails_on_non_finite_only(value: DbValue, r: Result<JsonValue, Error>)
    requires
        is_json_of(value, r),
    ensures
        r is Err <==> (value matches DbValue::Real(bits) && !is_finite(bits)),
{
}


proof fn lemma_exponent_bits(bits: u64)
    ensures
        is_finite(bits) <==> bits & 0x7ff0_0000_0000_0000 != 0x7ff0_0000_0000_0000,
        bits % FRACTION_SIZE == bits & 0x000f_ffff_ffff_ffff,
        bits / FRACTION_SIZE < 2048 <==> bits & 0x8000_0000_0000_0000 == 0,
{
    assert(bits / 0x10_0000_0000_0000 % 2048 != 2047 <==> bits & 0x7ff0_0000_0000_0000
        != 0x7ff0_0000_0000_0000) by (bit_vector);
    assert(bits % 0x10_0000_0000_0000 == bits & 0x000f_ffff_ffff_ffff) by (bit_vector);
    assert(bits / 0x10_0000_0000_0000 < 2048 <==> bits & 0x8000_0000_0000_0000 == 0)
        by (bit_vector);
}

/// A real number has a JSON form exactly if its exponent bits are not all set, and then keeps all
/// its bits. The error names what it is otherwise: with fraction bits it is no number, without
/// them it is infinite, and negative if its sign bit is set.
pub proof fn lemma_real_to_json(bits: u64, r: Result<JsonValue, Error>)
    requires
        call_ensures(DbValue::to_json, (DbValue::Real(bits),), r),
    ensures
        if bits & 0x7ff0_0000_0000_0000 != 0x7ff0_0000_0000_0000 {
            r matches Ok(JsonValue::Real(b)) && b == bits
        } else {
            let text = if bits & 0x000f_ffff_ffff_ffff != 0 {
                "NaN"@
            } else if bits & 0x8000_0000_0000_0000 == 0 {
                "inf"@
            } else {
                "-inf"@
            };
            r matches Err(e) && e@ == (
                ErrorKind::DbValueError,
                "Cannot to convert database value `"@ + text + "` to a JSON number"@,
            )
        },
{
    lemma_exponent_bits(bits);
}

/// Whether two values hold the same.
pub open spec fn same_value(a: DbValue, b: DbValue) -> bool {
    match (a, b) {
        (DbValue::Null, DbValue::Null) => true,
        (DbValue::Integer(i), DbValue::Integer(j)) => i == j,
        (DbValue::Real(x), DbValue::Real(y)) => x == y,
        (DbValue::Text(s), DbValue::Text(t)) => s@ == t@,
        (DbValue::Blob(x), DbValue::Blob(y)) => x@ == y@,
        _ => false,
    }
}

/// Whether two JSON forms are the same.
pub open spec fn same_json(a: JsonValue, b: JsonValue) -> bool {
    match (a, b) {
        (JsonValue::Null, JsonValue::Null) => true,
        (JsonValue::Integer(i), JsonValue::Integer(j)) => i == j,
        (JsonValue::Real(x), JsonValue::Real(y)) => x == y,
        (JsonValue::Text(s), JsonValue::Text(t)) => s@ == t@,
        (JsonValue::Base64(s), JsonValue::Base64(t)) => s@ == t@,
        _ => false,
    }
}

/// The JSON form of a value tells the value, and two values that hold the same have the same
/// form. A blob is told apart from a text, and only a real number can have no form.
pub proof fn lemma_json_tells_value(
    a: DbValue,
    b: DbValue,
    r: Result<JsonValue, Error>,
    q: Result<JsonValue, Error>,
)
    requires
        call_ensures(DbValue::to_json, (a,), r),
        call_ensures(DbValue::to_json, (b,), q),
    ensures
        r is Ok && q is Ok ==> (same_value(a, b) <==> same_json(r->Ok_0, q->Ok_0)),
        a !is Real ==> r is Ok,
        a is Blob && r is Ok ==> r->Ok_0 is Base64,
        a is Text && r is Ok ==> r->Ok_0 is Text && r->Ok_0->Text_0@ == a->Text_0@,
        a is Integer && r is Ok ==> r->Ok_0 is Integer && r->Ok_0->Integer_0 == a->Integer_0,
        a is Null && r is Ok ==> r->Ok_0 is Null,
{
    if let (DbValue::Blob(x), DbValue::Blob(y)) = (a, b) {
        if base64_standard(x@) == base64_standard(y@) {
            lemma_base64_standard_injective(x@, y@);
        }
    }
}

} // verus!
