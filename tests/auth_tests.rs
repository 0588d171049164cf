use estuary::auth::{bearer_token, validate_client_assertion, AuthConfig, AuthError, Claims};
use estuary::jwt::{
    accept_payload, claims_from_payload, verify_under, JwtValidator, PendingToken, ValidationAction,
    VerificationRequest,
};
use estuary::keyset::{Freshness, KeySetCache, SigningKey, SigningKeySet};
use jsonwebtoken::jwk::Jwk;
use jsonwebtoken::{encode, Algorithm, EncodingKey, Header};

const SECRET: &[u8] = b"edge-layer-test-secret-0123456789";
const SECRET_B64: &str = "ZWRnZS1sYXllci10ZXN0LXNlY3JldC0wMTIzNDU2Nzg5";

fn now_secs() -> u64 {
    std::time::SystemTime::now()
        .duration_since(std::time::UNIX_EPOCH)
        .unwrap()
        .as_secs()
}

fn jwk(kid: &str, secret_b64: &str) -> Jwk {
    let text = format!(
        "{{\"kty\":\"oct\",\"kid\":\"{}\",\"alg\":\"HS256\",\"k\":\"{}\"}}",
        kid, secret_b64
    );
    serde_json::from_str(&text).unwrap()
}

fn key_set(kids: &[&str]) -> SigningKeySet {
    let keys = kids
        .iter()
        .map(|k| SigningKey { kid: Some(k.to_string()), jwk: jwk(k, SECRET_B64) })
        .collect();
    SigningKeySet::new(keys)
}

fn token(kid: Option<&str>, sub: &str, extra: &str) -> String {
    let mut header = Header::new(Algorithm::HS256);
    header.kid = kid.map(|k| k.to_string());
    let now = now_secs();
    let body = format!(
        "{{\"sub\":\"{}\",\"exp\":{},\"iat\":{}{}}}",
        sub,
        now + 3600,
        now,
        extra
    );
    let claims: serde_json::Value = serde_json::from_str(&body).unwrap();
    encode(&header, &claims, &EncodingKey::from_secret(SECRET)).unwrap()
}

fn config(urls: &[&str]) -> AuthConfig {
    AuthConfig {
        enabled: true,
        jwks_urls: urls.iter().map(|u| u.to_string()).collect(),
        audience: None,
        issuer: None,
        jwks_cache_seconds: 3600,
    }
}

fn expect_fetch(a: ValidationAction) -> (usize, String) {
    match a {
        ValidationAction::Fetch { issuer, url } => (issuer, url),
        ValidationAction::Finished(_) => panic!("expected a fetch"),
    }
}

fn expect_finished(a: ValidationAction) -> Result<Claims, AuthError> {
    match a {
        ValidationAction::Finished(r) => r,
        ValidationAction::Fetch { .. } => panic!("expected the end of validation"),
    }
}

fn invalid_message(r: Result<Claims, AuthError>) -> String {
    match r {
        Err(AuthError::InvalidToken(m)) => m,
        _ => panic!("expected an invalid token"),
    }
}

fn pending(v: &JwtValidator, t: &str) -> PendingToken {
    match v.start(t) {
        Ok(p) => p,
        Err(_) => panic!("header must decode"),
    }
}

#[test]
fn token_signed_with_known_key_yields_its_subject() {
    let mut v = JwtValidator::new(config(&["https://issuer.example/jwks"]));
    let t = token(Some("K1"), "user-42", "");
    let mut p = pending(&v, &t);
    assert_eq!(p.key_id(), "K1");
    let (issuer, url) = expect_fetch(v.resume(&mut p, 1_000));
    assert_eq!(issuer, 0);
    assert_eq!(url, "https://issuer.example/jwks");
    let claims = expect_finished(v.key_fetch_done(&mut p, Ok(key_set(&["K0", "K1"])), 1_000)).unwrap();
    assert_eq!(claims.sub, "user-42");
    assert!(claims.iss.is_none());
}

#[test]
fn unknown_key_id_fails_with_no_matching_key() {
    let mut v = JwtValidator::new(config(&["https://a.example/jwks", "https://b.example/jwks"]));
    let t = token(Some("K9"), "user-42", "");
    let mut p = pending(&v, &t);
    let (i, _) = expect_fetch(v.resume(&mut p, 0));
    assert_eq!(i, 0);
    let (i, url) = expect_fetch(v.key_fetch_done(&mut p, Ok(key_set(&["K1"])), 0));
    assert_eq!(i, 1);
    assert_eq!(url, "https://b.example/jwks");
    let r = expect_finished(v.key_fetch_done(&mut p, Ok(key_set(&["K2"])), 0));
    assert_eq!(invalid_message(r), "No matching key found in JWKS");
}

#[test]
fn token_without_kid_fails_before_any_fetch() {
    let v = JwtValidator::new(config(&["https://issuer.example/jwks"]));
    let t = token(None, "user-42", "");
    match v.start(&t) {
        Err(AuthError::InvalidToken(m)) => assert_eq!(m, "Missing kid in JWT header"),
        _ => panic!("a token without kid must fail at once"),
    }
    assert!(matches!(v.start("not-a-token"), Err(AuthError::InvalidToken(_))));
}

#[test]
fn cached_keys_are_not_fetched_again_within_ttl() {
    let mut v = JwtValidator::new(config(&["https://issuer.example/jwks"]));
    let t = token(Some("K1"), "user-42", "");
    let mut p = pending(&v, &t);
    expect_fetch(v.resume(&mut p, 10_000));
    assert!(expect_finished(v.key_fetch_done(&mut p, Ok(key_set(&["K1"])), 10_000)).is_ok());

    let mut second = pending(&v, &t);
    let again = expect_finished(v.resume(&mut second, 10_000 + 3_599_999));
    assert_eq!(again.unwrap().sub, "user-42");

    let mut third = pending(&v, &t);
    let (i, _) = expect_fetch(v.resume(&mut third, 10_000 + 3_600_000));
    assert_eq!(i, 0);
}

#[test]
fn failed_refresh_keeps_serving_stale_keys() {
    let mut v = JwtValidator::new(config(&["https://issuer.example/jwks"]));
    let t = token(Some("K1"), "user-42", "");
    let mut p = pending(&v, &t);
    expect_fetch(v.resume(&mut p, 0));
    assert!(expect_finished(v.key_fetch_done(&mut p, Ok(key_set(&["K1"])), 0)).is_ok());

    let later = 7_200_000;
    let mut second = pending(&v, &t);
    expect_fetch(v.resume(&mut second, later));
    let r = v.key_fetch_done(&mut second, Err(AuthError::JwksFetchError("HTTP 503".to_string())), later);
    assert_eq!(expect_finished(r).unwrap().sub, "user-42");

    let t9 = token(Some("K9"), "user-42", "");
    let mut third = pending(&v, &t9);
    expect_fetch(v.resume(&mut third, later));
    let r = v.key_fetch_done(&mut third, Err(AuthError::JwksFetchError("timeout".to_string())), later);
    assert_eq!(invalid_message(expect_finished(r)), "No matching key found in JWKS");
}

#[test]
fn failing_issuer_is_skipped_for_the_next() {
    let mut v = JwtValidator::new(config(&["https://down.example/jwks", "https://up.example/jwks"]));
    let t = token(Some("K1"), "user-7", "");
    let mut p = pending(&v, &t);
    expect_fetch(v.resume(&mut p, 0));
    let (i, _) = expect_fetch(v.key_fetch_done(&mut p, Err(AuthError::JwksFetchError("x".to_string())), 0));
    assert_eq!(i, 1);
    let r = expect_finished(v.key_fetch_done(&mut p, Ok(key_set(&["K1"])), 0));
    assert_eq!(r.unwrap().sub, "user-7");
}

#[test]
fn wrong_signature_is_invalid() {
    let mut v = JwtValidator::new(config(&["https://issuer.example/jwks"]));
    let t = token(Some("K1"), "user-42", "");
    let mut p = pending(&v, &t);
    expect_fetch(v.resume(&mut p, 0));
    let other = SigningKeySet::new(vec![SigningKey {
        kid: Some("K1".to_string()),
        jwk: jwk("K1", "b3RoZXItc2VjcmV0LXRoYXQtZG9lcy1ub3QtbWF0Y2g"),
    }]);
    let r = expect_finished(v.key_fetch_done(&mut p, Ok(other), 0));
    assert!(matches!(r, Err(AuthError::InvalidToken(_))));
}

#[test]
fn audience_and_issuer_are_enforced() {
    let mut cfg = config(&["https://issuer.example/jwks"]);
    cfg.audience = Some("api".to_string());
    cfg.issuer = Some("https://issuer.example".to_string());
    let mut v = JwtValidator::new(cfg);
    let good = token(Some("K1"), "user-42", ",\"aud\":\"api\",\"iss\":\"https://issuer.example\"");
    let mut p = pending(&v, &good);
    expect_fetch(v.resume(&mut p, 0));
    let c = expect_finished(v.key_fetch_done(&mut p, Ok(key_set(&["K1"])), 0)).unwrap();
    assert_eq!(c.aud, Some("api".to_string()));
    assert_eq!(c.iss, Some("https://issuer.example".to_string()));

    let bad = token(Some("K1"), "user-42", ",\"aud\":\"other\",\"iss\":\"https://issuer.example\"");
    let mut p = pending(&v, &bad);
    let r = expect_finished(v.resume(&mut p, 0));
    assert!(matches!(r, Err(AuthError::InvalidToken(_))));
}

#[test]
fn client_assertion_must_name_the_client() {
    let claims = |sub: &str, iss: Option<&str>| Claims {
        sub: sub.to_string(),
        exp: 10,
        iat: 1,
        iss: iss.map(|s| s.to_string()),
        aud: None,
        custom: serde_json::Value::Null,
    };
    assert!(validate_client_assertion(Ok(claims("client-1", None)), "client-1").is_ok());
    assert!(validate_client_assertion(Ok(claims("client-1", Some("client-1"))), "client-1").is_ok());
    match validate_client_assertion(Ok(claims("client-2", None)), "client-1") {
        Err(AuthError::InvalidToken(m)) => assert_eq!(m, "Client ID mismatch in sub claim"),
        _ => panic!("subject mismatch must fail"),
    }
    match validate_client_assertion(Ok(claims("client-1", Some("evil"))), "client-1") {
        Err(AuthError::InvalidToken(m)) => assert_eq!(m, "Client ID mismatch in iss claim"),
        _ => panic!("issuer mismatch must fail"),
    }
    assert!(matches!(
        validate_client_assertion(Err(AuthError::AuthRequired), "client-1"),
        Err(AuthError::AuthRequired)
    ));
}

#[test]
fn bearer_prefix_is_required() {
    assert_eq!(bearer_token("Bearer abc.def.ghi"), Some("abc.def.ghi"));
    assert_eq!(bearer_token("bearer abc"), None);
    assert_eq!(bearer_token("Basic abc"), None);
    assert_eq!(bearer_token("Bearer "), Some(""));
}

#[test]
fn cache_freshness_follows_ttl() {
    let mut c = KeySetCache::new(2, 1_000);
    assert_eq!(c.lookup(0, 0), Freshness::Missing);
    c.store(0, key_set(&["K1"]), 500);
    assert_eq!(c.lookup(0, 500), Freshness::Fresh);
    assert_eq!(c.lookup(0, 1_499), Freshness::Fresh);
    assert_eq!(c.lookup(0, 1_500), Freshness::Stale);
    assert_eq!(c.lookup(0, 499), Freshness::Stale);
    assert_eq!(c.lookup(1, 600), Freshness::Missing);
    assert_eq!(c.keys(0).unwrap().find_key("K1"), Some(0));
}

#[test]
fn key_lookup_takes_first_match() {
    let ks = key_set(&["A", "B", "B"]);
    assert_eq!(ks.find_key("B"), Some(1));
    assert_eq!(ks.find_key("C"), None);
}

#[test]
fn auth_config_defaults() {
    let c = AuthConfig::default();
    assert!(!c.enabled);
    assert!(c.jwks_urls.is_empty());
    assert_eq!(c.jwks_cache_seconds, 3600);
}

#[test]
fn repeated_issuer_url_is_fetched_once() {
    let mut v = JwtValidator::new(config(&["https://a.example/jwks", "https://a.example/jwks"]));
    let t = token(Some("K9"), "user-42", "");
    let mut p = pending(&v, &t);
    expect_fetch(v.resume(&mut p, 0));
    let r = expect_finished(v.key_fetch_done(&mut p, Ok(key_set(&["K1"])), 0));
    assert_eq!(invalid_message(r), "No matching key found in JWKS");
}

#[test]
fn verification_request_names_key_algorithm_audience_issuer() {
    let mut cfg = config(&["https://issuer.example/jwks"]);
    cfg.audience = Some("api".to_string());
    cfg.issuer = Some("https://issuer.example".to_string());
    let v = JwtValidator::new(cfg);
    let t = token(Some("K1"), "user-42", ",\"aud\":\"api\",\"iss\":\"https://issuer.example\"");
    let p = pending(&v, &t);
    let keys = key_set(&["K0", "K1", "K1"]);
    let q = v.verification_request(&p, &keys).unwrap();
    assert_eq!(q.key_index, 1);
    assert_eq!(q.alg, Algorithm::HS256);
    assert_eq!(q.audience, Some("api".to_string()));
    assert_eq!(q.issuer, Some("https://issuer.example".to_string()));
    assert!(v.verification_request(&p, &key_set(&["K0"])).is_none());
    let claims = verify_under(&t, &keys, &q).unwrap();
    assert_eq!(claims.sub, "user-42");
    assert_eq!(claims.aud, Some("api".to_string()));
}

#[test]
fn key_set_from_document_keeps_ids_in_order() {
    let text = format!(
        "{{\"keys\":[{{\"kty\":\"oct\",\"kid\":\"A\",\"k\":\"{}\"}},{{\"kty\":\"oct\",\"k\":\"{}\"}},{{\"kty\":\"oct\",\"kid\":\"B\",\"k\":\"{}\"}}]}}",
        SECRET_B64, SECRET_B64, SECRET_B64
    );
    let set: jsonwebtoken::jwk::JwkSet = serde_json::from_str(&text).unwrap();
    let ks = SigningKeySet::from_jwk_set(set);
    assert_eq!(ks.keys.len(), 3);
    assert_eq!(ks.keys[0].kid, Some("A".to_string()));
    assert_eq!(ks.keys[1].kid, None);
    assert_eq!(ks.find_key("B"), Some(2));
}

#[test]
fn configured_audience_must_be_present_in_token() {
    let mut cfg = config(&["https://issuer.example/jwks"]);
    cfg.audience = Some("api".to_string());
    let mut v = JwtValidator::new(cfg);
    let no_aud = token(Some("K1"), "user-42", "");
    let mut p = pending(&v, &no_aud);
    expect_fetch(v.resume(&mut p, 0));
    let r = expect_finished(v.key_fetch_done(&mut p, Ok(key_set(&["K1"])), 0));
    assert_eq!(invalid_message(r), "Token audience does not match");

    let mut cfg = config(&["https://issuer.example/jwks"]);
    cfg.issuer = Some("https://issuer.example".to_string());
    let mut v = JwtValidator::new(cfg);
    let mut p = pending(&v, &no_aud);
    expect_fetch(v.resume(&mut p, 0));
    let r = expect_finished(v.key_fetch_done(&mut p, Ok(key_set(&["K1"])), 0));
    assert_eq!(invalid_message(r), "Token issuer does not match");
}

#[test]
fn key_of_another_family_is_refused() {
    let mut v = JwtValidator::new(config(&["https://issuer.example/jwks"]));
    let t = token(Some("K1"), "user-42", "");
    let mut p = pending(&v, &t);
    expect_fetch(v.resume(&mut p, 0));
    let ec: Jwk = serde_json::from_str(
        "{\"kty\":\"EC\",\"kid\":\"K1\",\"crv\":\"P-256\",\"x\":\"f83OJ3D2xF1Bg8vub9tLe1gHMzV76e8Tus9uPHvRVEU\",\"y\":\"x_FEzRu9m36HLN_tue659LNpXW6pCyStikYjKIWI5a0\"}",
    )
    .unwrap();
    let set = SigningKeySet::new(vec![SigningKey { kid: Some("K1".to_string()), jwk: ec }]);
    let r = expect_finished(v.key_fetch_done(&mut p, Ok(set), 0));
    assert!(matches!(r, Err(AuthError::InvalidToken(_))));
}

#[test]
fn extra_claims_are_kept() {
    let mut v = JwtValidator::new(config(&["https://issuer.example/jwks"]));
    let t = token(Some("K1"), "user-42", ",\"role\":\"admin\",\"tenant\":7");
    let mut p = pending(&v, &t);
    expect_fetch(v.resume(&mut p, 0));
    let c = expect_finished(v.key_fetch_done(&mut p, Ok(key_set(&["K1"])), 0)).unwrap();
    assert_eq!(c.custom["role"], "admin");
    assert_eq!(c.custom["tenant"], 7);
    assert_eq!(c.custom["sub"], "user-42");
}

fn request(audience: Option<&str>, issuer: Option<&str>) -> VerificationRequest {
    VerificationRequest {
        key_index: 0,
        alg: Algorithm::HS256,
        audience: audience.map(|a| a.to_string()),
        issuer: issuer.map(|i| i.to_string()),
    }
}

#[test]
fn accepted_payloads_match_the_request() {
    let payload = |text: &str| -> serde_json::Value { serde_json::from_str(text).unwrap() };
    let ok = payload("{\"sub\":\"u\",\"exp\":5,\"iat\":1,\"aud\":\"api\",\"iss\":\"me\"}");
    let c = accept_payload(ok.clone(), &request(Some("api"), Some("me"))).unwrap();
    assert_eq!(c.sub, "u");
    assert_eq!(c.custom, ok);
    assert!(accept_payload(ok.clone(), &request(None, None)).is_ok());
    assert!(matches!(accept_payload(ok.clone(), &request(Some("other"), None)), Err(AuthError::InvalidToken(_))));
    assert!(matches!(accept_payload(ok, &request(None, Some("you"))), Err(AuthError::InvalidToken(_))));
    let no_aud = payload("{\"sub\":\"u\",\"exp\":5,\"iat\":1}");
    assert!(accept_payload(no_aud, &request(Some("api"), None)).is_err());
    let bad = payload("{\"sub\":3,\"exp\":5,\"iat\":1}");
    assert!(matches!(claims_from_payload(bad), Err(AuthError::InvalidToken(_))));
    let null_iss = payload("{\"sub\":\"u\",\"exp\":5,\"iat\":1,\"iss\":null}");
    assert_eq!(claims_from_payload(null_iss).unwrap().iss, None);
}
