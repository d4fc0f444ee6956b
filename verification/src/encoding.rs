//! Base64 and JSON text.

use base64::Engine;

use vstd::prelude::*;

verus! {

// Base64.

/// The byte at an index, or 0 past the end.
pub open spec fn byte_at(b: Seq<u8>, i: int) -> int {
    if 0 <= i < b.len() {
        b[i] as int
    } else {
        0
    }
}

/// The `i`-th group of six bits of a byte sequence.
pub open spec fn sextet(b: Seq<u8>, i: int) -> int {
    let j = i / 4 * 3;
    if i % 4 == 0 {
        byte_at(b, j) / 4
    } else if i % 4 == 1 {
        byte_at(b, j) % 4 * 16 + byte_at(b, j + 1) / 16
    } else if i % 4 == 2 {
        byte_at(b, j + 1) % 16 * 4 + byte_at(b, j + 2) / 64
    } else {
        byte_at(b, j + 2) % 64
    }
}

/// The base64 digit of a six-bit number, with the given last two digits.
pub open spec fn base64_digit(v: int, c62: char, c63: char) -> char {
    if v < 26 {
        (65 + v) as char
    } else if v < 52 {
        (97 + v - 26) as char
    } else if v < 62 {
        (48 + v - 52) as char
    } else if v == 62 {
        c62
    } else {
        c63
    }
}

/// The base64 form of a byte sequence, without padding.
pub open spec fn base64_with(b: Seq<u8>, c62: char, c63: char) -> Seq<char> {
    Seq::new(((b.len() * 8 + 5) / 6) as nat, |i: int| base64_digit(sextet(b, i), c62, c63))
}

/// Base64 with the URL-safe alphabet, without padding.
pub open spec fn base64_url(b: Seq<u8>) -> Seq<char> {
    base64_with(b, '-', '_')
}

/// Base64 with the standard alphabet, without padding.
pub open spec fn base64_standard(b: Seq<u8>) -> Seq<char> {
    base64_with(b, '+', '/')
}

/// `Engine::encode` of the engine `URL_SAFE_NO_PAD` writes the URL-safe base64 form without
/// padding.
#[verifier::external_body]
pub(crate) fn encode_base64_url(bytes: &[u8]) -> (r: String)
    ensures
        r@ == base64_url(bytes@),
{
    base64::engine::general_purpose::URL_SAFE_NO_PAD.encode(bytes)
}

/// `Engine::encode` of the engine `BASE64_STANDARD_NO_PAD` writes the standard base64 form
/// without padding.
#[verifier::external_body]
pub(crate) fn encode_base64_standard(bytes: &[u8]) -> (r: String)
    ensures
        r@ == base64_standard(bytes@),
{
    base64::prelude::BASE64_STANDARD_NO_PAD.encode(bytes)
}

/// A group of six bits is a number below 64.
pub proof fn lemma_sextet_range(b: Seq<u8>, i: int)
    ensures
        0 <= sextet(b, i) < 64,
{
}

/// The URL-safe base64 form of bytes holds no dot.
pub proof fn lemma_base64_url_has_no_dot(b: Seq<u8>, i: int)
    requires
        0 <= i < base64_url(b).len(),
    ensures
        base64_url(b)[i] != '.',
{
    lemma_sextet_range(b, i);
}

/// Whether two characters end one of the alphabets.
pub open spec fn is_alphabet_end(c62: char, c63: char) -> bool {
    (c62 == '-' && c63 == '_') || (c62 == '+' && c63 == '/')
}

proof fn lemma_digit_injective(x: int, y: int, c62: char, c63: char)
    requires
        0 <= x < 64,
        0 <= y < 64,
        is_alphabet_end(c62, c63),
        base64_digit(x, c62, c63) == base64_digit(y, c62, c63),
    ensures
        x == y,
{
    let c = base64_digit(x, c62, c63) as u32;
    let d = base64_digit(y, c62, c63) as u32;
    assert(c == d);
    assert(x < 26 ==> c == 65 + x);
    assert(26 <= x < 52 ==> c == 71 + x);
    assert(52 <= x < 62 ==> c == x - 4);
}

proof fn lemma_base64_with_injective(a: Seq<u8>, b: Seq<u8>, c62: char, c63: char)
    requires
        is_alphabet_end(c62, c63),
        base64_with(a, c62, c63) == base64_with(b, c62, c63),
    ensures
        a == b,
{
    let n = a.len() as int;
    let m = b.len() as int;
    assert(base64_with(a, c62, c63).len() == (n * 8 + 5) / 6);
    assert(base64_with(b, c62, c63).len() == (m * 8 + 5) / 6);
    assert(n == m);
    assert forall|i: int| 0 <= i < (n * 8 + 5) / 6 implies sextet(a, i) == sextet(b, i) by {
        assert(base64_with(a, c62, c63)[i] == base64_digit(sextet(a, i), c62, c63));
        assert(base64_with(b, c62, c63)[i] == base64_digit(sextet(b, i), c62, c63));
        lemma_sextet_range(a, i);
        lemma_sextet_range(b, i);
        lemma_digit_injective(sextet(a, i), sextet(b, i), c62, c63);
    }
    assert forall|j: int| 0 <= j < a.len() implies a[j] == b[j] by {
        let g = j / 3;
        let i = g * 4 + j % 3;
        assert(i / 4 == g && i % 4 == j % 3);
        assert((i + 1) / 4 == g && (i + 1) % 4 == j % 3 + 1);
        assert(i + 1 < (n * 8 + 5) / 6);
        assert(sextet(a, i) == sextet(b, i));
        assert(sextet(a, i + 1) == sextet(b, i + 1));
        assert(byte_at(a, j) == byte_at(b, j));
    }
    assert(a =~= b);
}

/// Base64 loses nothing: different byte sequences have different forms.
pub proof fn lemma_base64_injective(a: Seq<u8>, b: Seq<u8>)
    requires
        base64_url(a) == base64_url(b),
    ensures
        a == b,
{
    lemma_base64_with_injective(a, b, '-', '_');
}

/// The standard alphabet loses nothing either.
pub proof fn lemma_base64_standard_injective(a: Seq<u8>, b: Seq<u8>)
    requires
        base64_standard(a) == base64_standard(b),
    ensures
        a == b,
{
    lemma_base64_with_injective(a, b, '+', '/');
}

// JSON strings.

/// A lower-case hexadecimal digit.
pub open spec fn json_hex_digit(d: int) -> char {
    if d < 10 {
        (48 + d) as char
    } else {
        (87 + d) as char
    }
}

/// A character as it stands in a JSON string.
pub open spec fn json_escape(c: char) -> Seq<char> {
    let v = c as u32;
    if c == '"' || c == '\\' {
        seq!['\\', c]
    } else if v == 8 {
        seq!['\\', 'b']
    } else if v == 9 {
        seq!['\\', 't']
    } else if v == 10 {
        seq!['\\', 'n']
    } else if v == 12 {
        seq!['\\', 'f']
    } else if v == 13 {
        seq!['\\', 'r']
    } else if v < 32 {
        seq!['\\', 'u', '0', '0', json_hex_digit(v as int / 16), json_hex_digit(v as int % 16)]
    } else {
        seq![c]
    }
}

/// A text as a JSON string, quotes included.
pub open spec fn json_string(s: Seq<char>) -> Seq<char> {
    seq!['"'] + s.map_values(|c: char| json_escape(c)).flatten() + seq!['"']
}

/// `serde_json::to_string` of a text writes it as a JSON string: quotes and backslashes are
/// escaped, control characters take their short escape or `\u00` and two digits, and every
/// other character stands for itself.
#[verifier::external_body]
pub(crate) fn to_json_string(s: &str) -> (r: String)
    ensures
        r@ == json_string(s@),
{
    serde_json::to_string(s).unwrap()
}

proof fn lemma_hex_digit_injective(a: int, b: int)
    requires
        0 <= a < 16,
        0 <= b < 16,
        json_hex_digit(a) == json_hex_digit(b),
    ensures
        a == b,
{
    let c = json_hex_digit(a) as u32;
    let d = json_hex_digit(b) as u32;
    assert(c == d);
    assert(a < 10 ==> c == 48 + a);
    assert(a >= 10 ==> c == 87 + a);
    assert(b < 10 ==> d == 48 + b);
    assert(b >= 10 ==> d == 87 + b);
}

proof fn lemma_escape_unambiguous(c: char, d: char, x: Seq<char>, y: Seq<char>)
    requires
        json_escape(c) + x == json_escape(d) + y,
    ensures
        c == d,
        x == y,
{
    let p = json_escape(c);
    let q = json_escape(d);
    let l = p + x;
    let r = q + y;
    assert(l[0] == p[0] && r[0] == q[0]);
    if p.len() > 1 && q.len() > 1 {
        assert(l[1] == p[1] && r[1] == q[1]);
        if p[1] == 'u' {
            assert(l[4] == p[4] && r[4] == q[4]);
            assert(l[5] == p[5] && r[5] == q[5]);
            let v = c as u32 as int;
            let w = d as u32 as int;
            lemma_hex_digit_injective(v / 16, w / 16);
            lemma_hex_digit_injective(v % 16, w % 16);
            assert(v == w);
        }
    }
    assert(c == d);
    assert(x =~= l.skip(p.len() as int));
    assert(y =~= r.skip(q.len() as int));
}

proof fn lemma_escapes_unambiguous(a: Seq<char>, b: Seq<char>, x: Seq<char>, y: Seq<char>)
    requires
        a.map_values(|c: char| json_escape(c)).flatten() + seq!['"'] + x == b.map_values(
            |c: char| json_escape(c),
        ).flatten() + seq!['"'] + y,
    ensures
        a == b,
        x == y,
    decreases a.len(),
{
    let escape = |c: char| json_escape(c);
    let ea = a.map_values(escape);
    let eb = b.map_values(escape);
    let l = ea.flatten() + seq!['"'] + x;
    let r = eb.flatten() + seq!['"'] + y;
    if a.len() > 0 {
        assert(ea.drop_first() =~= a.drop_first().map_values(escape));
        assert(ea[0] == json_escape(a[0]));
        assert(l =~= json_escape(a[0]) + (ea.drop_first().flatten() + seq!['"'] + x));
        assert(l[0] == json_escape(a[0])[0]);
    } else {
        assert(ea.flatten() =~= Seq::<char>::empty());
        assert(l[0] == '"');
        assert(x =~= l.skip(1));
    }
    if b.len() > 0 {
        assert(eb.drop_first() =~= b.drop_first().map_values(escape));
        assert(eb[0] == json_escape(b[0]));
        assert(r =~= json_escape(b[0]) + (eb.drop_first().flatten() + seq!['"'] + y));
        assert(r[0] == json_escape(b[0])[0]);
    } else {
        assert(eb.flatten() =~= Seq::<char>::empty());
        assert(r[0] == '"');
        assert(y =~= r.skip(1));
    }
    if a.len() > 0 && b.len() > 0 {
        let rest_a = ea.drop_first().flatten() + seq!['"'] + x;
        let rest_b = eb.drop_first().flatten() + seq!['"'] + y;
        lemma_escape_unambiguous(a[0], b[0], rest_a, rest_b);
        lemma_escapes_unambiguous(a.drop_first(), b.drop_first(), x, y);
        assert(a =~= seq![a[0]] + a.drop_first());
        assert(b =~= seq![b[0]] + b.drop_first());
    } else {
        assert(a =~= b);
    }
}

/// A JSON string tells its text, and where it ends: whatever follows two of them, the whole is
/// the same only if the texts are.
pub proof fn lemma_json_string_unambiguous(a: Seq<char>, b: Seq<char>, x: Seq<char>, y: Seq<char>)
    requires
        json_string(a) + x == json_string(b) + y,
    ensures
        a == b,
        x == y,
{
    let escape = |c: char| json_escape(c);
    let ea = a.map_values(escape).flatten();
    let eb = b.map_values(escape).flatten();
    assert((json_string(a) + x).skip(1) =~= ea + seq!['"'] + x);
    assert((json_string(b) + y).skip(1) =~= eb + seq!['"'] + y);
    lemma_escapes_unambiguous(a, b, x, y);
}

} // verus!
