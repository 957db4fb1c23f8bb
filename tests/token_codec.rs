use user_auth::claims::{render_claims, Claims};
use user_auth::error::ApiError;
use user_auth::jwt::{decode_jwt, encode_jwt, issue_token, TOKEN_LIFETIME};

const SECRET: &str = "test-signing-key";

fn flip_bit(token: &str, index: usize) -> String {
    let mut bytes = token.as_bytes().to_vec();
    bytes[index] ^= 1;
    String::from_utf8(bytes).unwrap()
}

#[test]
fn payload_text_is_exact() {
    let c = Claims { user_id: 7, email: "a@b.com".to_string(), permission: 1, exp: 100, iat: 50 };
    let text = String::from_utf8(render_claims(&c)).unwrap();
    assert_eq!(text, r#"{"user_id":7,"permission":1,"exp":100,"iat":50,"email":"a@b.com"}"#);
}

#[test]
fn payload_text_escapes_and_signs() {
    let c = Claims {
        user_id: -2147483648,
        email: "q\"b\\s\u{1}é".to_string(),
        permission: -128,
        exp: i64::MIN,
        iat: i64::MAX,
    };
    let text = String::from_utf8(render_claims(&c)).unwrap();
    assert_eq!(
        text,
        "{\"user_id\":-2147483648,\"permission\":-128,\"exp\":-9223372036854775808,\"iat\":9223372036854775807,\"email\":\"q\\\"b\\\\s\\u0001é\"}"
    );
}

#[test]
fn round_trip_seven() {
    let token = encode_jwt(7, "a@b.com", 1, 1_000, SECRET);
    let claims = decode_jwt(&token, SECRET, 1_000).unwrap();
    assert_eq!(claims.user_id, 7);
    assert_eq!(claims.email, "a@b.com");
    assert_eq!(claims.permission, 1);
    assert_eq!(claims.iat, 1_000);
    assert_eq!(claims.exp, 1_000 + TOKEN_LIFETIME);
}

#[test]
fn round_trip_awkward_email() {
    let email = "\"quoted\"\\back\tslash\u{7f}ü@例え.jp";
    let token = encode_jwt(-5, email, 2, 0, SECRET);
    let claims = decode_jwt(&token, SECRET, 10).unwrap();
    assert_eq!(claims.user_id, -5);
    assert_eq!(claims.email, email);
    assert_eq!(claims.permission, 2);
}

#[test]
fn token_is_a_standard_hs256_jwt() {
    let token = encode_jwt(7, "a@b.com", 1, 1_000, SECRET);
    let parts: Vec<&str> = token.split('.').collect();
    assert_eq!(parts.len(), 3);
    assert_eq!(parts[0], "eyJ0eXAiOiJKV1QiLCJhbGciOiJIUzI1NiJ9");
    let mut validation = jsonwebtoken::Validation::new(jsonwebtoken::Algorithm::HS256);
    validation.validate_exp = false;
    validation.required_spec_claims.clear();
    let key = jsonwebtoken::DecodingKey::from_secret(SECRET.as_bytes());
    let data = jsonwebtoken::decode::<serde_json::Value>(&token, &key, &validation).unwrap();
    assert_eq!(data.claims["user_id"], 7);
    assert_eq!(data.claims["email"], "a@b.com");
    assert_eq!(data.claims["permission"], 1);
    assert_eq!(data.claims["exp"], 1_000 + TOKEN_LIFETIME);
    assert_eq!(data.claims["iat"], 1_000);
}

#[test]
fn expiry_is_strict() {
    let token = encode_jwt(1, "t@e.com", 1, 5_000, SECRET);
    let exp = 5_000 + TOKEN_LIFETIME;
    assert!(decode_jwt(&token, SECRET, exp - 1).is_ok());
    assert!(decode_jwt(&token, SECRET, exp).is_ok());
    assert!(matches!(decode_jwt(&token, SECRET, exp + 1), Err(ApiError::Unauthenticated)));
}

#[test]
fn flipped_signature_bit_fails() {
    let token = encode_jwt(1, "t@e.com", 1, 5_000, SECRET);
    let sig_start = token.rfind('.').unwrap() + 1;
    for index in sig_start..token.len() {
        let tampered = flip_bit(&token, index);
        assert!(matches!(decode_jwt(&tampered, SECRET, 5_000), Err(ApiError::Unauthenticated)));
    }
}

#[test]
fn flipped_payload_bit_fails() {
    let token = encode_jwt(1, "t@e.com", 1, 5_000, SECRET);
    let first = token.find('.').unwrap();
    let tampered = flip_bit(&token, first + 3);
    assert!(matches!(decode_jwt(&tampered, SECRET, 5_000), Err(ApiError::Unauthenticated)));
}

#[test]
fn other_secret_fails() {
    let token = encode_jwt(1, "t@e.com", 1, 5_000, SECRET);
    assert!(matches!(decode_jwt(&token, "another-key", 5_000), Err(ApiError::Unauthenticated)));
}

#[test]
fn malformed_tokens_fail() {
    for token in ["", "abc", "a.b", "a.b.c", "..", "é.é.é"] {
        assert!(matches!(decode_jwt(token, SECRET, 0), Err(ApiError::Unauthenticated)));
    }
}

#[test]
fn token_signed_with_other_header_fails() {
    let mut claims = serde_json::Map::new();
    claims.insert("user_id".to_string(), serde_json::Value::from(7));
    claims.insert("permission".to_string(), serde_json::Value::from(1));
    claims.insert("exp".to_string(), serde_json::Value::from(44_200));
    claims.insert("iat".to_string(), serde_json::Value::from(1_000));
    claims.insert("email".to_string(), serde_json::Value::from("a@b.com"));
    let header = jsonwebtoken::Header::new(jsonwebtoken::Algorithm::HS384);
    let key = jsonwebtoken::EncodingKey::from_secret(SECRET.as_bytes());
    let token = jsonwebtoken::encode(&header, &claims, &key).unwrap();
    assert!(matches!(decode_jwt(&token, SECRET, 1_000), Err(ApiError::Unauthenticated)));
}

#[test]
fn issue_token_matches_encode_at() {
    let c = Claims { user_id: 3, email: "x@y.z".to_string(), permission: 2, exp: 43_300, iat: 100 };
    assert_eq!(issue_token(&c, SECRET), encode_jwt(3, "x@y.z", 2, 100, SECRET));
}

#[test]
fn extra_dots_fail() {
    let token = encode_jwt(1, "t@e.com", 1, 5_000, SECRET);
    for extra in [format!("{}.", token), format!("{}.x", token), format!("{}..", token)] {
        assert!(matches!(decode_jwt(&extra, SECRET, 5_000), Err(ApiError::Unauthenticated)));
    }
}

fn sign_parts(header: &str, payload: &str) -> String {
    let engine = &base64::engine::general_purpose::URL_SAFE_NO_PAD;
    let message = format!(
        "{}.{}",
        base64::Engine::encode(engine, header.as_bytes()),
        base64::Engine::encode(engine, payload.as_bytes())
    );
    let key = jsonwebtoken::EncodingKey::from_secret(SECRET.as_bytes());
    let sig = jsonwebtoken::crypto::sign(message.as_bytes(), &key, jsonwebtoken::Algorithm::HS256).unwrap();
    format!("{}.{}", message, sig)
}

#[test]
fn reordered_header_and_spaced_payload_verify() {
    let token = sign_parts(
        r#"{"alg":"HS256","typ":"JWT"}"#,
        r#"{ "email": "a@b.com", "iat": 1000, "exp": 44200, "permission": 1, "user_id": 7, "extra": [1, {"x": null}] }"#,
    );
    let claims = decode_jwt(&token, SECRET, 44_200).unwrap();
    assert_eq!(claims.user_id, 7);
    assert_eq!(claims.email, "a@b.com");
    assert_eq!(claims.permission, 1);
    assert_eq!(claims.exp, 44_200);
    assert!(matches!(decode_jwt(&token, SECRET, 44_201), Err(ApiError::Unauthenticated)));
}

#[test]
fn token_from_jsonwebtoken_encode_verifies() {
    let mut claims = serde_json::Map::new();
    claims.insert("user_id".to_string(), serde_json::Value::from(11));
    claims.insert("email".to_string(), serde_json::Value::from("q\"x@y.z"));
    claims.insert("permission".to_string(), serde_json::Value::from(2));
    claims.insert("exp".to_string(), serde_json::Value::from(500));
    claims.insert("iat".to_string(), serde_json::Value::from(100));
    let header = jsonwebtoken::Header::new(jsonwebtoken::Algorithm::HS256);
    let key = jsonwebtoken::EncodingKey::from_secret(SECRET.as_bytes());
    let token = jsonwebtoken::encode(&header, &claims, &key).unwrap();
    let decoded = decode_jwt(&token, SECRET, 200).unwrap();
    assert_eq!(decoded.user_id, 11);
    assert_eq!(decoded.email, "q\"x@y.z");
    assert_eq!(decoded.permission, 2);
}

#[test]
fn header_without_hs256_or_bad_claims_fails() {
    let payload = r#"{"user_id":7,"permission":1,"exp":100,"iat":50,"email":"a@b.com"}"#;
    let bad_alg = sign_parts(r#"{"alg":"none","typ":"JWT"}"#, payload);
    assert!(matches!(decode_jwt(&bad_alg, SECRET, 0), Err(ApiError::Unauthenticated)));
    let no_email = sign_parts(r#"{"alg":"HS256"}"#, r#"{"user_id":7,"permission":1,"exp":100,"iat":50}"#);
    assert!(matches!(decode_jwt(&no_email, SECRET, 0), Err(ApiError::Unauthenticated)));
    let too_big = sign_parts(r#"{"alg":"HS256"}"#, r#"{"user_id":7,"permission":300,"exp":100,"iat":50,"email":"e"}"#);
    assert!(matches!(decode_jwt(&too_big, SECRET, 0), Err(ApiError::Unauthenticated)));
    let good = sign_parts(r#"{"alg":"HS256"}"#, payload);
    assert!(decode_jwt(&good, SECRET, 0).is_ok());
}
