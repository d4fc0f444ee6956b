use base64::engine::general_purpose::URL_SAFE_NO_PAD;
use base64::Engine;
use ed25519_dalek::{Signature, Verifier, VerifyingKey};
use libsql_server::token::{
    accepts_signature, generate_keypair, sign_token, sign_token_at, write_claims,
    write_signing_input, SigningKey,
};

const SECRET: [u8; 32] = [7; 32];

fn key() -> SigningKey {
    SigningKey { secret: SECRET }
}

fn verifying_key(text: &str) -> VerifyingKey {
    let bytes: [u8; 32] = URL_SAFE_NO_PAD.decode(text).unwrap().try_into().unwrap();
    VerifyingKey::from_bytes(&bytes).unwrap()
}

fn verifies(token: &str, public_text: &str) -> bool {
    let (input, signature) = token.rsplit_once('.').unwrap();
    let bytes: [u8; 64] = URL_SAFE_NO_PAD.decode(signature).unwrap().try_into().unwrap();
    verifying_key(public_text)
        .verify(input.as_bytes(), &Signature::from_bytes(&bytes))
        .is_ok()
}

#[test]
fn keys_are_written_in_base64() {
    assert_eq!(key().secret_text(), URL_SAFE_NO_PAD.encode(SECRET));
    let public = ed25519_dalek::SigningKey::from_bytes(&SECRET).verifying_key().to_bytes();
    assert_eq!(key().public_text(), URL_SAFE_NO_PAD.encode(public));
    let other = SigningKey { secret: [8; 32] };
    assert_ne!(other.secret_text(), key().secret_text());
    assert_ne!(other.public_text(), key().public_text());
}

#[test]
fn key_pairs_belong_together_and_differ() {
    let (signing_key, public_text) = generate_keypair();
    assert_eq!(public_text.len(), 43);
    assert_eq!(signing_key.public_text(), public_text);
    let (other, other_text) = generate_keypair();
    assert_ne!(other.secret, signing_key.secret);
    assert_ne!(other_text, public_text);
}

#[test]
fn claims_name_the_namespace_twice() {
    assert_eq!(
        write_claims("ns", 12),
        "{\"p\":{\"rw\":{\"ns\":[\"ns\"]},\"ro\":{\"ns\":[\"ns\"]}},\"exp\":12}"
    );
    let claims: serde_json::Value = serde_json::from_str(&write_claims("a\"\\\n\u{1}é", -3)).unwrap();
    assert_eq!(claims["p"]["rw"]["ns"][0], "a\"\\\n\u{1}é");
    assert_eq!(claims["p"]["ro"]["ns"][0], "a\"\\\n\u{1}é");
    assert_eq!(claims["exp"], -3);
}

#[test]
fn signed_part_is_header_and_claims() {
    let input = write_signing_input("db1", 99);
    let parts: Vec<&str> = input.split('.').collect();
    assert_eq!(parts.len(), 2);
    let header = URL_SAFE_NO_PAD.decode(parts[0]).unwrap();
    assert_eq!(header, b"{\"alg\":\"EdDSA\",\"typ\":\"JWT\"}");
    assert_eq!(URL_SAFE_NO_PAD.decode(parts[1]).unwrap(), write_claims("db1", 99).as_bytes());
}

#[test]
fn token_is_signed_by_its_key_only() {
    let token = sign_token_at("db1", &key(), 1_700_000_000, 3600);
    assert_eq!(token.split('.').count(), 3);
    assert!(token.starts_with(&write_signing_input("db1", 1_700_003_600)));
    assert!(verifies(&token, &key().public_text()));
    let (_, other) = generate_keypair();
    assert!(!verifies(&token, &other));
    assert_eq!(token, sign_token_at("db1", &key(), 1_700_000_000, 3600));
    assert_ne!(token, sign_token_at("db2", &key(), 1_700_000_000, 3600));
    assert_ne!(token, sign_token_at("db1", &key(), 1_700_000_000, 3601));
}

#[test]
fn signatures_are_checked() {
    let token = sign_token_at("db1", &key(), 1_700_000_000, 3600);
    let (input, text) = token.rsplit_once('.').unwrap();
    let signature: [u8; 64] = URL_SAFE_NO_PAD.decode(text).unwrap().try_into().unwrap();
    let public = ed25519_dalek::SigningKey::from_bytes(&SECRET).verifying_key().to_bytes();
    let other = ed25519_dalek::SigningKey::from_bytes(&[8; 32]).verifying_key().to_bytes();
    assert!(accepts_signature(&public, input, &signature));
    assert!(!accepts_signature(&other, input, &signature));
    assert!(!accepts_signature(&public, &token, &signature));
    assert!(!accepts_signature(&public, input, &[0; 64]));
    let mut no_point = [0; 32];
    no_point[0] = 2;
    assert!(VerifyingKey::from_bytes(&no_point).is_err());
    assert!(!accepts_signature(&no_point, input, &signature));
}

#[test]
fn token_expires_from_now() {
    let before = chrono::Utc::now().timestamp();
    let token = sign_token("db1", &key(), 60);
    let after = chrono::Utc::now().timestamp();
    let claims = URL_SAFE_NO_PAD.decode(token.split('.').nth(1).unwrap()).unwrap();
    let claims: serde_json::Value = serde_json::from_slice(&claims).unwrap();
    let exp = claims["exp"].as_i64().unwrap();
    assert!(before + 60 <= exp && exp <= after + 60);
    assert!(verifies(&token, &key().public_text()));
}
