//! Signing keys and access tokens.

use ed25519_dalek::{Signer, Verifier};

use vstd::prelude::*;
use vstd::utf8::*;

use crate::encoding::{base64_url, encode_base64_url, json_string, to_json_string};
use crate::text::{
    is_signed_decimal_of, lemma_signed_decimal, push_signed, signed_decimal,
};

verus! {

// Keys.

/// The public key of an Ed25519 secret key.
pub uninterp spec fn ed25519_public_key(secret: Seq<u8>) -> Seq<u8>;

/// The Ed25519 signature of a message under a secret key.
pub uninterp spec fn ed25519_signature(secret: Seq<u8>, message: Seq<u8>) -> Seq<u8>;

/// Whether `VerifyingKey::verify` accepts a signature of a message under the bytes of a public
/// key.
pub uninterp spec fn ed25519_accepts(
    public_key: Seq<u8>,
    message: Seq<u8>,
    signature: Seq<u8>,
) -> bool;

/// `SigningKey::generate` with the random generator of the operating system yields a secret
/// key of 32 bytes; nothing more is promised of it.
#[verifier::external_body]
fn random_secret() -> (r: [u8; 32]) {
    ed25519_dalek::SigningKey::generate(&mut rand::rngs::OsRng).to_bytes()
}

/// `SigningKey::verifying_key` derives the public key from the secret key alone.
#[verifier::external_body]
fn verifying_key(secret: &[u8; 32]) -> (r: [u8; 32])
    ensures
        r@ == ed25519_public_key(secret@),
{
    ed25519_dalek::SigningKey::from_bytes(secret).verifying_key().to_bytes()
}

/// `SigningKey::sign` computes the signature from the secret key and the message alone. The
/// public key of the secret key accepts it.
#[verifier::external_body]
fn sign(secret: &[u8; 32], message: &[u8]) -> (r: [u8; 64])
    ensures
        r@ == ed25519_signature(secret@, message@),
        ed25519_accepts(ed25519_public_key(secret@), message@, r@),
{
    ed25519_dalek::SigningKey::from_bytes(secret).sign(message).to_bytes()
}

/// `VerifyingKey::verify` decides from the public key, the message and the signature alone. Bytes
/// that `VerifyingKey::from_bytes` does not take for a public key accept nothing.
#[verifier::external_body]
fn verify(public_key: &[u8; 32], message: &[u8], signature: &[u8; 64]) -> (r: bool)
    ensures
        r == ed25519_accepts(public_key@, message@, signature@),
{
    match ed25519_dalek::VerifyingKey::from_bytes(public_key) {
        Ok(key) => key.verify(message, &ed25519_dalek::Signature::from_bytes(signature)).is_ok(),
        Err(_) => false,
    }
}

/// Tells whether a public key accepts the signature of a text, such as the signed part of a
/// token.
pub fn accepts_signature(public_key: &[u8; 32], text: &str, signature: &[u8; 64]) -> (r: bool)
    ensures
        r == ed25519_accepts(public_key@, encode_utf8(text@), signature@),
{
    verify(public_key, text.as_bytes(), signature)
}

/// An Ed25519 signing key.
pub struct SigningKey {
    pub secret: [u8; 32],
}

impl View for SigningKey {
    type V = Seq<u8>;

    open spec fn view(&self) -> Seq<u8> {
        self.secret@
    }
}

impl SigningKey {
    /// The base64 form of the secret key.
    pub fn secret_text(&self) -> (r: String)
        ensures
            r@ == base64_url(self@),
    {
        encode_base64_url(self.secret.as_slice())
    }

    /// The base64 form of the public key, in which namespaces store it.
    pub fn public_text(&self) -> (r: String)
        ensures
            r@ == base64_url(ed25519_public_key(self@)),
            ed25519_public_key(self@).len() == 32,
    {
        encode_base64_url(verifying_key(&self.secret).as_slice())
    }
}

/// Generates a key pair: the signing key, and the 32 bytes of its public key in base64.
pub fn generate_keypair() -> (r: (SigningKey, String))
    ensures
        r.1@ == base64_url(ed25519_public_key(r.0@)),
        ed25519_public_key(r.0@).len() == 32,
{
    let key = SigningKey { secret: random_secret() };
    let public_text = key.public_text();
    (key, public_text)
}

// Time.

/// `Utc::now` and `DateTime::timestamp`: the seconds since the Unix epoch. `Utc::now` returns no
/// time before the epoch, and its calendar ends before the bound stated here.
#[verifier::external_body]
pub(crate) fn unix_now() -> (r: i64)
    ensures
        0 <= r < 0x800_0000_0000,
{
    chrono::Utc::now().timestamp()
}

/// Whether a text has the form of a point in time in UTC: at least a date and a time of day, and
/// at its end the offset of UTC.
pub open spec fn is_utc_time(text: Seq<char>) -> bool {
    text.len() >= 25 && text.skip(text.len() - 6) == "+00:00"@
}

/// `Utc::now` and `DateTime::to_rfc3339`: the current time as a text, at least 19 characters of
/// date and time and then the offset of UTC. Which time it is depends on the clock.
#[verifier::external_body]
pub(crate) fn rfc3339_now() -> (r: String)
    ensures
        is_utc_time(r@),
{
    chrono::Utc::now().to_rfc3339()
}

// Tokens.

/// The header of a token.
pub open spec fn token_header() -> Seq<char> {
    "{\"alg\":\"EdDSA\",\"typ\":\"JWT\"}"@
}

/// The claims of a token: read and write access to one namespace, until a point in time.
pub open spec fn token_claims(namespace: Seq<char>, exp: int) -> Seq<char> {
    "{\"p\":{\"rw\":{\"ns\":["@ + json_string(namespace) + "]},\"ro\":{\"ns\":["@ + json_string(
        namespace,
    ) + "]}},\"exp\":"@ + signed_decimal(exp) + "}"@
}

/// The signed part of a token.
pub open spec fn signing_input(namespace: Seq<char>, exp: int) -> Seq<char> {
    base64_url(encode_utf8(token_header())) + "."@ + base64_url(
        encode_utf8(token_claims(namespace, exp)),
    )
}

/// A token: its signed part and the signature.
pub open spec fn token(namespace: Seq<char>, secret: Seq<u8>, exp: int) -> Seq<char> {
    signing_input(namespace, exp) + "."@ + base64_url(
        ed25519_signature(secret, encode_utf8(signing_input(namespace, exp))),
    )
}

/// Whether the signature of a token is accepted under the public key of its secret key.
pub open spec fn signature_holds(namespace: Seq<char>, secret: Seq<u8>, exp: int) -> bool {
    let message = encode_utf8(signing_input(namespace, exp));
    ed25519_accepts(ed25519_public_key(secret), message, ed25519_signature(secret, message))
}

/// Writes the claims of a token.
pub fn write_claims(namespace: &str, exp: i64) -> (r: String)
    ensures
        r@ == token_claims(namespace@, exp as int),
{
    let ns = to_json_string(namespace);
    let mut claims = "{\"p\":{\"rw\":{\"ns\":[".to_owned();
    claims.append(ns.as_str());
    claims.append("]},\"ro\":{\"ns\":[");
    claims.append(ns.as_str());
    claims.append("]}},\"exp\":");
    push_signed(&mut claims, exp);
    claims.append("}");
    claims
}

/// Writes the signed part of a token.
pub fn write_signing_input(namespace: &str, exp: i64) -> (r: String)
    ensures
        r@ == signing_input(namespace@, exp as int),
{
    let mut input = encode_base64_url("{\"alg\":\"EdDSA\",\"typ\":\"JWT\"}".as_bytes());
    input.append(".");
    let claims = write_claims(namespace, exp);
    input.append(encode_base64_url(claims.as_str().as_bytes()).as_str());
    input
}

/// Signs a token for a namespace that expires `expires_in_secs` after `now`.
pub fn sign_token_at(namespace: &str, signing_key: &SigningKey, now: i64, expires_in_secs: i64) -> (r:
    String)
    requires
        i64::MIN <= now + expires_in_secs <= i64::MAX,
    ensures
        r@ == token(namespace@, signing_key@, now + expires_in_secs),
        signature_holds(namespace@, signing_key@, now + expires_in_secs),
{
    let mut text = write_signing_input(namespace, now + expires_in_secs);
    let signature = sign(&signing_key.secret, text.as_str().as_bytes());
    text.append(".");
    text.append(encode_base64_url(signature.as_slice()).as_str());
    text
}

/// Signs a token for a namespace that expires `expires_in_secs` from now.
pub fn sign_token(namespace: &str, signing_key: &SigningKey, expires_in_secs: i64) -> (r: String)
    requires
        expires_in_secs <= i64::MAX - 0x800_0000_0000,
    ensures
        exists|now: i64|
            0 <= now < 0x800_0000_0000 && r@ == #[trigger] token(
                namespace@,
                signing_key@,
                now + expires_in_secs,
            ) && signature_holds(namespace@, signing_key@, now + expires_in_secs),
{
    let now = unix_now();
    sign_token_at(namespace, signing_key, now, expires_in_secs)
}

// Laws.

/// A token has three parts, separated by two dots: none of the parts holds a dot itself.
pub proof fn lemma_token_has_three_parts(namespace: Seq<char>, secret: Seq<u8>, exp: int)
    ensures
        ({
            let header = base64_url(encode_utf8(token_header()));
            let claims = base64_url(encode_utf8(token_claims(namespace, exp)));
            let signature = base64_url(
                ed25519_signature(secret, encode_utf8(signing_input(namespace, exp))),
            );
            &&& token(namespace, secret, exp) == header + "."@ + claims + "."@ + signature
            &&& !header.contains('.')
            &&& !claims.contains('.')
            &&& !signature.contains('.')
        }),
{
    lemma_no_dot(encode_utf8(token_header()));
    lemma_no_dot(encode_utf8(token_claims(namespace, exp)));
    lemma_no_dot(ed25519_signature(secret, encode_utf8(signing_input(namespace, exp))));
}

proof fn lemma_no_dot(b: Seq<u8>)
    ensures
        !base64_url(b).contains('.'),
{
    if base64_url(b).contains('.') {
        let i = choose|i: int| 0 <= i < base64_url(b).len() && base64_url(b)[i] == '.';
        crate::encoding::lemma_base64_url_has_no_dot(b, i);
    }
}

/// The stored texts of two keys are the same only if the keys are.
pub proof fn lemma_key_text_determines_key(a: SigningKey, b: SigningKey)
    requires
        base64_url(a@) == base64_url(b@),
    ensures
        a@ == b@,
{
    crate::encoding::lemma_base64_injective(a@, b@);
}

proof fn lemma_claims_injective(a: Seq<char>, e: int, b: Seq<char>, f: int)
    requires
        token_claims(a, e) == token_claims(b, f),
    ensures
        a == b,
        e == f,
{
    let p = "{\"p\":{\"rw\":{\"ns\":["@;
    let q = "]},\"ro\":{\"ns\":["@;
    let r = "]}},\"exp\":"@;
    let tail_a = q + json_string(a) + r + signed_decimal(e) + "}"@;
    let tail_b = q + json_string(b) + r + signed_decimal(f) + "}"@;
    assert(token_claims(a, e).skip(p.len() as int) =~= json_string(a) + tail_a);
    assert(token_claims(b, f).skip(p.len() as int) =~= json_string(b) + tail_b);
    crate::encoding::lemma_json_string_unambiguous(a, b, tail_a, tail_b);
    let n = (q + json_string(a) + r).len() as int;
    reveal_strlit("}");
    assert(tail_a.subrange(n, tail_a.len() - 1) =~= signed_decimal(e));
    assert(tail_b.subrange(n, tail_b.len() - 1) =~= signed_decimal(f));
    crate::text::lemma_signed_decimal_injective(e, f);
}

proof fn lemma_first_dot(p: Seq<char>, x: Seq<char>, q: Seq<char>, y: Seq<char>)
    requires
        !p.contains('.'),
        !q.contains('.'),
        p + "."@ + x == q + "."@ + y,
    ensures
        p == q,
        x == y,
{
    reveal_strlit(".");
    let l = p + "."@ + x;
    let r = q + "."@ + y;
    assert(l[p.len() as int] == '.');
    assert(r[q.len() as int] == '.');
    if p.len() < q.len() {
        assert(r[p.len() as int] == q[p.len() as int]);
    }
    if q.len() < p.len() {
        assert(l[q.len() as int] == p[q.len() as int]);
    }
    assert(p =~= l.take(p.len() as int));
    assert(q =~= r.take(q.len() as int));
    assert(x =~= l.skip(p.len() as int + 1));
    assert(y =~= r.skip(q.len() as int + 1));
}

/// A token tells the namespace that it opens and when it expires: tokens that differ in one of
/// these are different, whatever keys sign them.
pub proof fn lemma_token_tells_claims(
    a: Seq<char>,
    secret_a: Seq<u8>,
    exp_a: int,
    b: Seq<char>,
    secret_b: Seq<u8>,
    exp_b: int,
)
    requires
        token(a, secret_a, exp_a) == token(b, secret_b, exp_b),
    ensures
        a == b,
        exp_a == exp_b,
{
    let header = base64_url(encode_utf8(token_header()));
    let bytes_a = encode_utf8(token_claims(a, exp_a));
    let bytes_b = encode_utf8(token_claims(b, exp_b));
    let sig_a = base64_url(ed25519_signature(secret_a, encode_utf8(signing_input(a, exp_a))));
    let sig_b = base64_url(ed25519_signature(secret_b, encode_utf8(signing_input(b, exp_b))));
    let rest_a = base64_url(bytes_a) + "."@ + sig_a;
    let rest_b = base64_url(bytes_b) + "."@ + sig_b;
    lemma_no_dot(bytes_a);
    lemma_no_dot(bytes_b);
    assert(token(a, secret_a, exp_a) =~= header + "."@ + rest_a);
    assert(token(b, secret_b, exp_b) =~= header + "."@ + rest_b);
    let n = (header + "."@).len() as int;
    assert((header + "."@ + rest_a).skip(n) =~= rest_a);
    assert((header + "."@ + rest_b).skip(n) =~= rest_b);
    lemma_first_dot(base64_url(bytes_a), sig_a, base64_url(bytes_b), sig_b);
    crate::encoding::lemma_base64_injective(bytes_a, bytes_b);
    crate::text::lemma_bytes_determine_chars(token_claims(a, exp_a), token_claims(b, exp_b));
    lemma_claims_injective(a, exp_a, b, exp_b);
}

/// Whether a token verifies under a public key that is written in base64: what follows its last
/// dot is a signature of what precedes it, which the key accepts.
pub open spec fn verifies_under(text: Seq<char>, public_text: Seq<char>) -> bool {
    exists|public_key: Seq<u8>, input: Seq<char>, signature: Seq<u8>|
        {
            &&& public_text == base64_url(public_key)
            &&& text == input + "."@ + base64_url(signature)
            &&& #[trigger] ed25519_accepts(public_key, encode_utf8(input), signature)
        }
}

/// A token verifies under the public key of the pair whose signing key signed it.
pub proof fn lemma_token_verifies(
    namespace: Seq<char>,
    secret: Seq<u8>,
    exp: int,
    public_text: Seq<char>,
)
    requires
        signature_holds(namespace, secret, exp),
        public_text == base64_url(ed25519_public_key(secret)),
    ensures
        verifies_under(token(namespace, secret, exp), public_text),
{
    let input = signing_input(namespace, exp);
    assert(ed25519_accepts(
        ed25519_public_key(secret),
        encode_utf8(input),
        ed25519_signature(secret, encode_utf8(input)),
    ));
}


/// Whether a text is the JSON object that claims to read and to write one namespace until a point
/// in time.
pub open spec fn claims_access(text: Seq<char>, namespace: Seq<char>, exp: int) -> bool {
    exists|time: Seq<char>|
        is_signed_decimal_of(time, exp) && text == "{\"p\":{\"rw\":{\"ns\":["@ + json_string(
            namespace,
        ) + "]},\"ro\":{\"ns\":["@ + json_string(namespace) + "]}},\"exp\":"@
            + #[trigger] (time + "}"@)
}

proof fn lemma_claims_access(namespace: Seq<char>, exp: int)
    ensures
        claims_access(token_claims(namespace, exp), namespace, exp),
{
    let time = signed_decimal(exp);
    lemma_signed_decimal(exp);
    assert(token_claims(namespace, exp) =~= "{\"p\":{\"rw\":{\"ns\":["@ + json_string(namespace)
        + "]},\"ro\":{\"ns\":["@ + json_string(namespace) + "]}},\"exp\":"@ + (time + "}"@));
}

/// The claims that are written name the namespace once for reading and once for writing, and the
/// second at which they expire.
pub proof fn lemma_write_claims(namespace: &str, exp: i64, r: String)
    requires
        call_ensures(write_claims, (namespace, exp), r),
    ensures
        claims_access(r@, namespace@, exp as int),
{
    lemma_claims_access(namespace@, exp as int);
}

/// Whether a token is made of a header for Ed25519, claims on a namespace until a point in time,
/// and a signature of the two that a public key accepts.
pub open spec fn is_signed_token(
    text: Seq<char>,
    namespace: Seq<char>,
    exp: int,
    public_key: Seq<u8>,
) -> bool {
    exists|claims: Seq<char>, input: Seq<char>, signature: Seq<u8>|
        {
            &&& #[trigger] claims_access(claims, namespace, exp)
            &&& input == base64_url(encode_utf8("{\"alg\":\"EdDSA\",\"typ\":\"JWT\"}"@)) + "."@
                + base64_url(encode_utf8(claims))
            &&& #[trigger] ed25519_accepts(public_key, encode_utf8(input), signature)
            &&& text == input + "."@ + base64_url(signature)
        }
}

/// A token for a namespace expires the given time after it was signed, and carries a signature
/// that the public key of its signing key accepts.
pub proof fn lemma_sign_token_at(
    namespace: &str,
    signing_key: &SigningKey,
    now: i64,
    expires_in_secs: i64,
    r: String,
)
    requires
        call_ensures(sign_token_at, (namespace, signing_key, now, expires_in_secs), r),
    ensures
        is_signed_token(
            r@,
            namespace@,
            now + expires_in_secs,
            ed25519_public_key(signing_key@),
        ),
        r@ == token(namespace@, signing_key@, now + expires_in_secs),
{
    let exp = now + expires_in_secs;
    let claims = token_claims(namespace@, exp);
    let input = signing_input(namespace@, exp);
    let signature = ed25519_signature(signing_key@, encode_utf8(input));
    lemma_claims_access(namespace@, exp);
    assert(ed25519_accepts(ed25519_public_key(signing_key@), encode_utf8(input), signature));
    assert(input == base64_url(encode_utf8("{\"alg\":\"EdDSA\",\"typ\":\"JWT\"}"@)) + "."@
        + base64_url(encode_utf8(claims)));
}

/// What is signed for a namespace is accepted under the public key of the signing key.
pub proof fn lemma_signed_is_accepted(
    namespace: &str,
    signing_key: &SigningKey,
    now: i64,
    expires_in_secs: i64,
    text: String,
    public_key: &[u8; 32],
    input: &str,
    signature: &[u8; 64],
    r: bool,
)
    requires
        call_ensures(sign_token_at, (namespace, signing_key, now, expires_in_secs), text),
        call_ensures(accepts_signature, (public_key, input, signature), r),
        public_key@ == ed25519_public_key(signing_key@),
        text@ == input@ + "."@ + base64_url(signature@),
    ensures
        r,
{
    let exp = now + expires_in_secs;
    let own = ed25519_signature(signing_key@, encode_utf8(signing_input(namespace@, exp)));
    lemma_no_dot(own);
    lemma_no_dot(signature@);
    lemma_last_dot(
        signing_input(namespace@, exp),
        base64_url(own),
        input@,
        base64_url(signature@),
    );
    crate::encoding::lemma_base64_injective(own, signature@);
}

proof fn lemma_last_dot(p: Seq<char>, x: Seq<char>, q: Seq<char>, y: Seq<char>)
    requires
        !x.contains('.'),
        !y.contains('.'),
        p + "."@ + x == q + "."@ + y,
    ensures
        p == q,
        x == y,
{
    reveal_strlit(".");
    let l = p + "."@ + x;
    let r = q + "."@ + y;
    assert(l.len() == p.len() + 1 + x.len());
    assert(r.len() == q.len() + 1 + y.len());
    assert(l[p.len() as int] == '.');
    assert(r[q.len() as int] == '.');
    if p.len() < q.len() {
        assert(l[q.len() as int] == x[q.len() - p.len() - 1]);
    }
    if q.len() < p.len() {
        assert(r[p.len() as int] == y[p.len() - q.len() - 1]);
    }
    assert(p =~= l.take(p.len() as int));
    assert(q =~= r.take(q.len() as int));
    assert(x =~= l.skip(p.len() as int + 1));
    assert(y =~= r.skip(q.len() as int + 1));
}

/// The public text of a new pair is that of its signing key, and the stored texts of a key tell
/// the key.
pub proof fn lemma_pair_belongs_together(
    pair: (SigningKey, String),
    public_text: String,
    secret_text: String,
    other: &SigningKey,
    other_text: String,
)
    requires
        call_ensures(generate_keypair, (), pair),
        call_ensures(SigningKey::public_text, (&pair.0,), public_text),
        call_ensures(SigningKey::secret_text, (&pair.0,), secret_text),
        call_ensures(SigningKey::secret_text, (other,), other_text),
    ensures
        pair.1@ == public_text@,
        public_text@ == base64_url(ed25519_public_key(pair.0@)),
        secret_text@ == other_text@ <==> pair.0@ == other@,
{
    if secret_text@ == other_text@ {
        crate::encoding::lemma_base64_injective(pair.0@, other@);
    }
}


/// A token that is signed now expires the given time after some second since the epoch.
pub proof fn lemma_sign_token(
    namespace: &str,
    signing_key: &SigningKey,
    expires_in_secs: i64,
    r: String,
) -> (now: int)
    requires
        call_ensures(sign_token, (namespace, signing_key, expires_in_secs), r),
    ensures
        now >= 0,
        is_signed_token(
            r@,
            namespace@,
            now + expires_in_secs,
            ed25519_public_key(signing_key@),
        ),
{
    let now = choose|now: i64|
        0 <= now < 0x800_0000_0000 && r@ == #[trigger] token(
            namespace@,
            signing_key@,
            now + expires_in_secs,
        ) && signature_holds(namespace@, signing_key@, now + expires_in_secs);
    let exp = now + expires_in_secs;
    let claims = token_claims(namespace@, exp);
    let input = signing_input(namespace@, exp);
    let signature = ed25519_signature(signing_key@, encode_utf8(input));
    lemma_claims_access(namespace@, exp);
    assert(ed25519_accepts(ed25519_public_key(signing_key@), encode_utf8(input), signature));
    assert(input == base64_url(encode_utf8("{\"alg\":\"EdDSA\",\"typ\":\"JWT\"}"@)) + "."@
        + base64_url(encode_utf8(claims)));
    now as int
}

/// The signed part of a token is its header and the claims that are written for the namespace.
pub proof fn lemma_write_signing_input(namespace: &str, exp: i64, claims: String, r: String)
    requires
        call_ensures(write_claims, (namespace, exp), claims),
        call_ensures(write_signing_input, (namespace, exp), r),
    ensures
        r@ == base64_url(encode_utf8("{\"alg\":\"EdDSA\",\"typ\":\"JWT\"}"@)) + "."@ + base64_url(
            encode_utf8(claims@),
        ),
{
}

} // verus!
