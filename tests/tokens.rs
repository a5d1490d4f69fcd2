use server::models::{Claims, SlimUser};
use server::errors::ServiceError;
use server::token::{check_claims, create_jwt, decode_jwt, issue_token, ClaimFields, TokenError};

const DAY: u64 = 86400;
const NOW: u64 = 1_700_000_000;

fn secret() -> Vec<u8> {
    "sct07".repeat(8).into_bytes()
}

fn user(email: &str, clearance: bool) -> SlimUser {
    SlimUser { email: email.to_owned(), clearance }
}

fn flip(token: &str, index: usize) -> String {
    let mut bytes = token.as_bytes().to_vec();
    bytes[index] = if bytes[index] == b'A' { b'B' } else { b'A' };
    String::from_utf8(bytes).unwrap()
}

#[test]
fn issued_token_parses_back() {
    let token = create_jwt(&user("a@x.com", false), NOW, 60 * DAY, &secret()).unwrap();
    let claims = decode_jwt(&token, NOW, &secret()).unwrap();
    assert_eq!(claims, Claims { email: "a@x.com".to_owned(), clearance: false, exp: NOW + 60 * DAY });
    let admin = create_jwt(&user("root@x.com", true), NOW, 10, &secret()).unwrap();
    let claims = decode_jwt(&admin, NOW + 9, &secret()).unwrap();
    assert_eq!(claims, Claims { email: "root@x.com".to_owned(), clearance: true, exp: NOW + 10 });
}

#[test]
fn token_has_three_parts_and_is_deterministic() {
    let a = create_jwt(&user("a@x.com", false), NOW, DAY, &secret()).unwrap();
    let b = create_jwt(&user("a@x.com", false), NOW, DAY, &secret()).unwrap();
    assert_eq!(a, b);
    assert_eq!(a.split('.').count(), 3);
    let c = create_jwt(&user("a@x.com", false), NOW + 1, DAY, &secret()).unwrap();
    assert_ne!(a, c);
}

#[test]
fn expiry_boundary() {
    let now = NOW;
    let expired = create_jwt(&user("a@x.com", false), now - 2, 1, &secret()).unwrap();
    assert_eq!(decode_jwt(&expired, now, &secret()), Err(TokenError::Expired));
    let fresh = create_jwt(&user("a@x.com", false), now, 1, &secret()).unwrap();
    assert!(decode_jwt(&fresh, now, &secret()).is_ok());
    let at_expiry = create_jwt(&user("a@x.com", false), now - 1, 1, &secret()).unwrap();
    assert_eq!(decode_jwt(&at_expiry, now, &secret()), Err(TokenError::Expired));
}

#[test]
fn tampered_payload_is_invalid_signature() {
    let token = create_jwt(&user("a@x.com", false), NOW, DAY, &secret()).unwrap();
    let first_dot = token.find('.').unwrap();
    let second_dot = token.rfind('.').unwrap();
    for i in (first_dot + 1)..second_dot {
        let t = flip(&token, i);
        assert_eq!(decode_jwt(&t, NOW, &secret()), Err(TokenError::InvalidSignature), "byte {}", i);
    }
}

#[test]
fn tampered_signature_is_invalid_signature() {
    let token = create_jwt(&user("a@x.com", true), NOW, DAY, &secret()).unwrap();
    let second_dot = token.rfind('.').unwrap();
    for i in (second_dot + 1)..token.len() {
        let t = flip(&token, i);
        assert_eq!(decode_jwt(&t, NOW, &secret()), Err(TokenError::InvalidSignature), "byte {}", i);
    }
}

#[test]
fn other_secret_is_invalid_signature() {
    let token = create_jwt(&user("a@x.com", false), NOW, DAY, &secret()).unwrap();
    assert_eq!(decode_jwt(&token, NOW, b"not the key"), Err(TokenError::InvalidSignature));
}

#[test]
fn other_algorithm_is_refused() {
    let mut claims = serde_json::Map::new();
    claims.insert("email".to_owned(), serde_json::Value::from("a@x.com"));
    claims.insert("clearance".to_owned(), serde_json::Value::from(true));
    claims.insert("exp".to_owned(), serde_json::Value::from(NOW + DAY));
    let header = jsonwebtoken::Header::new(jsonwebtoken::Algorithm::HS256);
    let token =
        jsonwebtoken::encode(&header, &claims, &jsonwebtoken::EncodingKey::from_secret(&secret()))
            .unwrap();
    assert_eq!(decode_jwt(&token, NOW, &secret()), Err(TokenError::InvalidAlgorithm));
}

#[test]
fn garbage_is_malformed() {
    assert_eq!(decode_jwt("", NOW, &secret()), Err(TokenError::Malformed));
    assert_eq!(decode_jwt("abc", NOW, &secret()), Err(TokenError::Malformed));
    assert_eq!(decode_jwt("a.b.c.d", NOW, &secret()), Err(TokenError::Malformed));
}

#[test]
fn incomplete_claims_are_malformed() {
    let mut claims = serde_json::Map::new();
    claims.insert("email".to_owned(), serde_json::Value::from("a@x.com"));
    claims.insert("exp".to_owned(), serde_json::Value::from(NOW + DAY));
    let header = jsonwebtoken::Header::new(jsonwebtoken::Algorithm::HS512);
    let token =
        jsonwebtoken::encode(&header, &claims, &jsonwebtoken::EncodingKey::from_secret(&secret()))
            .unwrap();
    assert_eq!(decode_jwt(&token, NOW, &secret()), Err(TokenError::Malformed));
}

#[test]
fn check_claims_cases() {
    let full = ClaimFields { email: Some("a@x.com".to_owned()), clearance: Some(true), exp: Some(100) };
    assert_eq!(
        check_claims(full.clone(), 99),
        Ok(Claims { email: "a@x.com".to_owned(), clearance: true, exp: 100 })
    );
    assert_eq!(check_claims(full.clone(), 100), Err(TokenError::Expired));
    assert_eq!(check_claims(full, 101), Err(TokenError::Expired));
    let missing = ClaimFields { email: Some("a@x.com".to_owned()), clearance: None, exp: Some(100) };
    assert_eq!(check_claims(missing, 0), Err(TokenError::Malformed));
    let no_email = ClaimFields { email: None, clearance: Some(false), exp: Some(100) };
    assert_eq!(check_claims(no_email, 0), Err(TokenError::Malformed));
}

#[test]
fn issue_token_uses_the_clock() {
    let token = issue_token(&user("a@x.com", false), 60 * DAY, &secret()).unwrap();
    let now = unix_now();
    let claims = decode_jwt(&token, now, &secret()).unwrap();
    assert_eq!(claims.email, "a@x.com");
    assert!(claims.exp >= now + 60 * DAY - 5 && claims.exp <= now + 60 * DAY);
    assert!(now > 1_600_000_000);
}

fn unix_now() -> u64 {
    std::time::SystemTime::now().duration_since(std::time::UNIX_EPOCH).unwrap().as_secs()
}

#[test]
fn expiry_past_u64_is_internal_error() {
    let u = user("a@x.com", false);
    assert_eq!(create_jwt(&u, u64::MAX, 1, &secret()), Err(ServiceError::InternalServerError));
    assert_eq!(create_jwt(&u, 1, u64::MAX, &secret()), Err(ServiceError::InternalServerError));
    let edge = create_jwt(&u, u64::MAX - 5, 5, &secret()).unwrap();
    assert_eq!(decode_jwt(&edge, 0, &secret()).unwrap().exp, u64::MAX);
    assert_eq!(issue_token(&u, u64::MAX, &secret()), Err(ServiceError::InternalServerError));
}

#[test]
fn dot_in_signature_is_malformed() {
    let token = create_jwt(&user("a@x.com", false), NOW, DAY, &secret()).unwrap();
    let second_dot = token.rfind('.').unwrap();
    for i in (second_dot + 1)..token.len() {
        let mut bytes = token.as_bytes().to_vec();
        bytes[i] = b'.';
        let t = String::from_utf8(bytes).unwrap();
        assert_eq!(decode_jwt(&t, NOW, &secret()), Err(TokenError::Malformed), "byte {}", i);
    }
    let replaced = format!("{}.x", &token[..second_dot]);
    assert_eq!(decode_jwt(&replaced, NOW, &secret()), Err(TokenError::InvalidSignature));
    let emptied = format!("{}.", &token[..second_dot]);
    assert_eq!(decode_jwt(&emptied, NOW, &secret()), Err(TokenError::InvalidSignature));
}
