use mood_api::errors::{AuthenticateError, Error};
use mood_api::models::user::User;
use mood_api::utils::authenticate_request::{authenticate, authenticate_at, bearer_token};
use mood_api::utils::date::Date;
use mood_api::utils::oid::ObjectId;
use mood_api::utils::token::{
    admit_claims, create, create_at, decode, decode_at, seconds_since_epoch, sign, unix_now,
    Claims, TokenUser,
};

const SECRET: &str = "a secret for the tests";
const T: u64 = 1_700_000_000;

fn account() -> User {
    let mut user = User::new_at(
        "Ada".to_string(),
        "Lovelace \"the first\"".to_string(),
        "ada@example.com".to_string(),
        "hash".to_string(),
        Date::from_millis(1),
    );
    user.id = Some(ObjectId::from_bytes([0xab; 12]));
    user
}

fn identity() -> TokenUser {
    TokenUser {
        id: ObjectId::from_bytes([0xab; 12]),
        first_name: "Ada".to_string(),
        last_name: "Lovelace \"the first\"".to_string(),
        email: "ada@example.com".to_string(),
    }
}

fn invalid() -> Error {
    Error::Authenticate(AuthenticateError::InvalidToken)
}

#[test]
fn claims_expire_one_day_after_issue() {
    let claims = Claims::new_at(account(), T);
    assert_eq!(claims.iat, T);
    assert_eq!(claims.exp, T + 86400);
    assert_eq!(claims.user, identity());
    let claims = Claims::new(account());
    assert_eq!(claims.exp, claims.iat + 86400);
    assert_eq!(TokenUser::from(account()), identity());
}

#[test]
fn a_token_carries_its_claims() {
    let token = create_at(account(), SECRET, T).unwrap();
    assert!(!token.is_empty());
    assert_eq!(token.split('.').count(), 3);
    let claims = decode_at(&token, SECRET, T).unwrap();
    assert_eq!(claims, Claims { exp: T + 86400, iat: T, user: identity() });
}

#[test]
fn a_token_is_good_for_exactly_one_day() {
    let token = create_at(account(), SECRET, T).unwrap();
    assert!(decode_at(&token, SECRET, T).is_ok());
    assert!(decode_at(&token, SECRET, T + 1).is_ok());
    assert!(decode_at(&token, SECRET, T + 86399).is_ok());
    assert_eq!(decode_at(&token, SECRET, T + 86400), Err(invalid()));
    assert_eq!(decode_at(&token, SECRET, T + 86401), Err(invalid()));
    assert_eq!(decode_at(&token, SECRET, u64::MAX), Err(invalid()));
}

#[test]
fn a_token_does_not_verify_under_another_secret() {
    let token = create_at(account(), SECRET, T).unwrap();
    assert_eq!(decode_at(&token, "another secret", T), Err(invalid()));
    assert_eq!(decode_at(&token, "", T), Err(invalid()));
}

#[test]
fn a_tampered_or_malformed_token_does_not_verify() {
    let token = create_at(account(), SECRET, T).unwrap();
    let mut parts: Vec<String> = token.split('.').map(|part| part.to_string()).collect();
    let other = create_at(account(), SECRET, T + 5).unwrap();
    parts[1] = other.split('.').nth(1).unwrap().to_string();
    assert_eq!(decode_at(&parts.join("."), SECRET, T), Err(invalid()));
    assert_eq!(decode_at("", SECRET, T), Err(invalid()));
    assert_eq!(decode_at("a.b.c", SECRET, T), Err(invalid()));
    assert_eq!(decode_at(&token[..token.len() - 1], SECRET, T), Err(invalid()));
    assert_eq!(decode_at(&format!("{}.x", token), SECRET, T), Err(invalid()));
}

#[test]
fn a_signed_payload_without_the_claims_does_not_verify() {
    let mut claims = serde_json::Map::new();
    claims.insert("exp".to_string(), serde_json::Value::from(T + 86400));
    claims.insert("iat".to_string(), serde_json::Value::from(T));
    let key = jsonwebtoken::EncodingKey::from_secret(SECRET.as_bytes());
    let token = jsonwebtoken::encode(&jsonwebtoken::Header::default(), &claims, &key).unwrap();
    assert_eq!(decode_at(&token, SECRET, T), Err(invalid()));

    claims.insert("id".to_string(), serde_json::Value::from("not hex"));
    claims.insert("first_name".to_string(), serde_json::Value::from("A"));
    claims.insert("last_name".to_string(), serde_json::Value::from("B"));
    claims.insert("email".to_string(), serde_json::Value::from("a@b.com"));
    let token = jsonwebtoken::encode(&jsonwebtoken::Header::default(), &claims, &key).unwrap();
    assert_eq!(decode_at(&token, SECRET, T), Err(invalid()));

    claims.insert("id".to_string(), serde_json::Value::from("abababababababababababab"));
    let token = jsonwebtoken::encode(&jsonwebtoken::Header::default(), &claims, &key).unwrap();
    let read = decode_at(&token, SECRET, T).unwrap();
    assert_eq!(read.user.id, ObjectId::from_bytes([0xab; 12]));
    assert_eq!(read.user.first_name, "A");

    claims.insert("exp".to_string(), serde_json::Value::from("soon"));
    let token = jsonwebtoken::encode(&jsonwebtoken::Header::default(), &claims, &key).unwrap();
    assert_eq!(decode_at(&token, SECRET, T), Err(invalid()));
}

#[test]
fn issuing_is_deterministic() {
    let first = create_at(account(), SECRET, T).unwrap();
    let second = create_at(account(), SECRET, T).unwrap();
    assert_eq!(first, second);
    let later = create_at(account(), SECRET, T + 1).unwrap();
    assert_ne!(first, later);
    let claims = Claims { exp: T + 86400, iat: T, user: identity() };
    assert_eq!(sign(&claims, SECRET).unwrap(), first);
}

#[test]
fn a_token_issued_now_verifies_now() {
    let token = create(account(), SECRET).unwrap();
    let claims = decode(&token, SECRET).unwrap();
    assert_eq!(claims.user, identity());
    assert_eq!(claims.exp, claims.iat + 86400);
    assert!(claims.iat <= unix_now());
    assert!(unix_now() > 1_600_000_000);
    assert_eq!(decode(&token, "another secret"), Err(invalid()));
}

#[test]
fn an_expired_token_does_not_verify_now() {
    let token = create_at(account(), SECRET, 1_000).unwrap();
    assert_eq!(decode(&token, SECRET), Err(invalid()));
}

#[test]
fn the_bearer_token_is_taken_from_the_header() {
    assert_eq!(bearer_token("Bearer abc"), Some("abc"));
    assert_eq!(bearer_token("Bearer a b"), Some("a b"));
    assert_eq!(bearer_token("Bearer  abc"), Some(" abc"));
    assert_eq!(bearer_token("Bearer "), None);
    assert_eq!(bearer_token("Bearer"), None);
    assert_eq!(bearer_token("bearer abc"), None);
    assert_eq!(bearer_token("Basic abcdef"), None);
    assert_eq!(bearer_token(""), None);
    assert_eq!(bearer_token("Bearer é"), Some("é"));
    assert_eq!(bearer_token("ééééééé abc"), None);
}

#[test]
fn a_request_is_served_under_the_identity_in_its_token() {
    let token = create_at(account(), SECRET, T).unwrap();
    let header = format!("Bearer {}", token);
    assert_eq!(authenticate_at(Some(&header), SECRET, T + 10), Ok(identity()));
    assert_eq!(authenticate_at(Some(&header), SECRET, T + 86400), Err(invalid()));
    assert_eq!(authenticate_at(Some(&header), "another secret", T + 10), Err(invalid()));
    assert_eq!(authenticate_at(Some(&token), SECRET, T + 10), Err(invalid()));
    assert_eq!(authenticate_at(None, SECRET, T + 10), Err(invalid()));
    assert_eq!(authenticate_at(Some("Bearer nonsense"), SECRET, T + 10), Err(invalid()));
}

#[test]
fn a_request_is_authenticated_by_the_clock() {
    let token = create(account(), SECRET).unwrap();
    let header = format!("Bearer {}", token);
    assert_eq!(authenticate(Some(&header), SECRET), Ok(identity()));
    assert_eq!(authenticate(None, SECRET), Err(invalid()));
    let old = create_at(account(), SECRET, 1_000).unwrap();
    assert_eq!(authenticate(Some(&format!("Bearer {}", old)), SECRET), Err(invalid()));
}

#[test]
fn claims_are_admitted_strictly_before_their_expiry() {
    let claims = Claims { exp: 100, iat: 10, user: identity() };
    assert_eq!(admit_claims(Some(claims.clone()), 0), Ok(claims.clone()));
    assert_eq!(admit_claims(Some(claims.clone()), 99), Ok(claims.clone()));
    assert_eq!(admit_claims(Some(claims.clone()), 100), Err(invalid()));
    assert_eq!(admit_claims(Some(claims), 101), Err(invalid()));
    assert_eq!(admit_claims(None, 0), Err(invalid()));
}

#[test]
fn a_short_secret_counts_up_to_trailing_zero_bytes() {
    // HMAC pads a short key with zero bytes, so these two secrets are one key.
    let token = create_at(account(), "abc", T).unwrap();
    assert!(decode_at(&token, "abc\0", T).is_ok());
    assert_eq!(decode_at(&token, "abd", T), Err(invalid()));
    assert_eq!(decode_at(&token, "ab", T), Err(invalid()));
}

#[test]
fn a_reading_before_the_epoch_counts_as_the_epoch() {
    assert_eq!(seconds_since_epoch(0), 0);
    assert_eq!(seconds_since_epoch(17), 17);
    assert_eq!(seconds_since_epoch(1_700_000_000), 1_700_000_000);
    assert_eq!(seconds_since_epoch(i64::MAX), i64::MAX as u64);
    assert_eq!(seconds_since_epoch(-1), 0);
    assert_eq!(seconds_since_epoch(i64::MIN), 0);
}
