use checkup::auth::{
    bearer_token, claims_json, expiry_secs, gen_auth_token, init, parse_auth_token, sign_claims,
    token_audiences, Claims, TokenType,
};
use checkup::features::users::jwt;

const SEC: i128 = 1_000_000_000;
const HOUR: i128 = 3600 * SEC;
/// 2024-01-01T00:00:00Z
const NEW_YEAR: i128 = 1_704_067_200 * SEC;

fn now() -> i128 {
    let n = chrono::Utc::now();
    i128::from(n.timestamp()) * SEC + i128::from(n.timestamp_subsec_nanos())
}

fn decode_unchecked(token: &str, secret: &str) -> serde_json::Value {
    let mut v = jsonwebtoken::Validation::new(jsonwebtoken::Algorithm::HS256);
    v.validate_exp = false;
    v.validate_aud = false;
    v.required_spec_claims = std::collections::HashSet::new();
    jsonwebtoken::decode::<serde_json::Value>(
        token,
        &jsonwebtoken::DecodingKey::from_secret(secret.as_bytes()),
        &v,
    )
    .unwrap()
    .claims
}

#[test]
fn expiry_is_whole_seconds_rounded_down() {
    assert_eq!(expiry_secs(NEW_YEAR), 1_704_067_200);
    assert_eq!(expiry_secs(NEW_YEAR + SEC / 2), 1_704_067_200);
    assert_eq!(expiry_secs(-1), -1);
    assert_eq!(expiry_secs(-SEC), -1);
}

#[test]
fn claims_are_framed_like_serde() {
    assert_eq!(
        claims_json(-5, 1_704_067_200, TokenType::Refresh),
        r#"{"sub":-5,"exp":1704067200,"aud":"refresh"}"#
    );
}

#[test]
fn audiences_are_the_token_kinds() {
    assert_eq!(token_audiences(), vec!["access".to_string(), "refresh".to_string()]);
}

#[test]
fn generated_token_carries_the_claims() {
    let key = init("secret".to_string());
    let token = gen_auth_token(&key, NEW_YEAR, 42, TokenType::Access, 8);
    let claims = decode_unchecked(&token, "secret");
    assert_eq!(claims["sub"], 42);
    assert_eq!(claims["exp"], 1_704_067_200 + 8 * 3600);
    assert_eq!(claims["aud"], "access");
    assert_eq!(token.matches('.').count(), 2);
    // Signing is deterministic.
    let again = sign_claims(&Claims { sub: 42, exp: NEW_YEAR + 8 * HOUR, aud: TokenType::Access }, "secret");
    assert_eq!(token, again);
}

#[test]
fn hour_count_is_read_as_i64() {
    let key = init("k".to_string());
    let token = gen_auth_token(&key, NEW_YEAR, 1, TokenType::Refresh, u64::MAX);
    assert_eq!(decode_unchecked(&token, "k")["exp"], 1_704_067_200 - 3600);
}

#[test]
fn day_tokens_count_days() {
    let token = jwt::gen_auth_token("s", NEW_YEAR, 9, TokenType::Refresh, 2);
    let claims = decode_unchecked(&token, "s");
    assert_eq!(claims["exp"], 1_704_067_200 + 2 * 86_400);
    assert_eq!(claims["aud"], "refresh");
}

#[test]
fn issued_tokens_are_accepted() {
    let key = init("secret".to_string());
    for kind in [TokenType::Access, TokenType::Refresh] {
        let token = gen_auth_token(&key, now(), 42, kind, 8);
        let text = parse_auth_token(&key, &token).unwrap();
        let claims: serde_json::Value = serde_json::from_str(&text).unwrap();
        assert_eq!(claims["sub"], 42);
        let token = jwt::gen_auth_token("s", now(), 7, kind, 1);
        assert!(jwt::parse_auth_token(&token, "s").is_ok());
    }
}

#[test]
fn bad_tokens_are_unauthorized() {
    let key = init("secret".to_string());
    let err = parse_auth_token(&key, "not.a.token").unwrap_err();
    assert_eq!(err.status, 401);
    let err = jwt::parse_auth_token("garbage", "secret").unwrap_err();
    assert_eq!(err.status, 401);
    // Signed with another secret.
    let other = gen_auth_token(&init("other".to_string()), now(), 1, TokenType::Access, 1);
    assert_eq!(parse_auth_token(&key, &other).unwrap_err().message, "InvalidSignature");
    // Long expired.
    let old = gen_auth_token(&key, NEW_YEAR, 1, TokenType::Access, 1);
    assert_eq!(parse_auth_token(&key, &old).unwrap_err().message, "ExpiredSignature");
}

#[test]
fn tokens_for_other_audiences_are_refused() {
    let key = init("secret".to_string());
    let claims: serde_json::Value =
        serde_json::from_str(r#"{"sub":7,"exp":9999999999,"aud":"admin"}"#).unwrap();
    let token = jsonwebtoken::encode(
        &jsonwebtoken::Header::default(),
        &claims,
        &jsonwebtoken::EncodingKey::from_secret(b"secret"),
    )
    .unwrap();
    assert_eq!(parse_auth_token(&key, &token).unwrap_err().message, "InvalidAudience");
}

#[test]
fn bearer_header() {
    assert_eq!(bearer_token(Some("Bearer abc.def")).unwrap(), "abc.def");
    assert_eq!(bearer_token(Some("Bearer ")).unwrap(), "");
    let e = bearer_token(None).unwrap_err();
    assert_eq!((e.status, e.message.as_str()), (401, "Missing Authorization header"));
    let e = bearer_token(Some("Basic abc")).unwrap_err();
    assert_eq!(e.status, 401);
    assert_eq!(e.message, "Authorization header must use the Bearer scheme");
    assert!(bearer_token(Some("bearer abc")).is_err());
    assert!(bearer_token(Some("Bearer")).is_err());
}

#[test]
fn init_keeps_the_secret() {
    assert_eq!(init("s3".to_string()).secret(), "s3");
}

#[test]
fn check_outcomes() {
    assert_eq!(checkup::auth::check_outcome(Ok("{}".to_string())), Ok("{}".to_string()));
    let e = checkup::auth::check_outcome(Err("InvalidSignature".to_string())).unwrap_err();
    assert_eq!((e.status, e.message.as_str()), (401, "InvalidSignature"));
}

#[test]
fn parsed_tokens_give_back_their_claims() {
    let claims: serde_json::Value = serde_json::from_str(r#"{"sub":7,"exp":9999999999}"#).unwrap();
    let token = jsonwebtoken::encode(
        &jsonwebtoken::Header::default(),
        &claims,
        &jsonwebtoken::EncodingKey::from_secret(b"secret"),
    )
    .unwrap();
    let key = init("secret".to_string());
    let text = parse_auth_token(&key, &token).unwrap();
    assert_eq!(serde_json::from_str::<serde_json::Value>(&text).unwrap(), claims);
    let text = jwt::parse_auth_token(&token, "secret").unwrap();
    assert_eq!(serde_json::from_str::<serde_json::Value>(&text).unwrap(), claims);
}

#[test]
fn tokens_need_exactly_two_dots() {
    let key = init("secret".to_string());
    for t in ["", "abc", "a.b"] {
        let e = parse_auth_token(&key, t).unwrap_err();
        assert_eq!((e.status, e.message.as_str()), (401, "InvalidToken"));
        let e = jwt::parse_auth_token(t, "secret").unwrap_err();
        assert_eq!(e.message, "InvalidToken");
    }
    assert!(parse_auth_token(&key, "a.b.c.d").is_err());
    assert!(jwt::parse_auth_token("e30.e30.x.y", "secret").is_err());
}
