use estuary::auth::{AuthConfig, AuthOutcome};
use estuary::jwt::{JwtValidator, ValidationAction};
use estuary::keyset::{SigningKey, SigningKeySet};
use estuary::pipeline::{
    attach_auth, before_business, correlation_id, rate_limit_headers, rate_limited_reply,
    response_id_header, Admission, RequestFacts, RATE_LIMITED_BODY,
};
use estuary::rate_limit::{RateLimitConfig, RateLimiter, RateStatus};
use estuary::security::{security_headers, SecurityConfig};
use estuary::text::decimal;
use estuary::version::ApiVersion;
use jsonwebtoken::{encode, Algorithm, EncodingKey, Header};

fn facts(client: u128, authorization: Option<&str>, request_id: Option<&str>) -> RequestFacts {
    RequestFacts {
        path: "/api/v1/items".to_string(),
        accept: None,
        api_version: None,
        forwarded_client: Some(client),
        real_ip_client: None,
        authorization: authorization.map(|a| a.to_string()),
        request_id: request_id.map(|r| r.to_string()),
    }
}

fn header_value(headers: &[(String, String)], name: &str) -> Option<String> {
    headers.iter().find(|(n, _)| n == name).map(|(_, v)| v.clone())
}

#[test]
fn request_over_the_limit_gets_rate_limited_reply() {
    let mut limiter = RateLimiter::new(RateLimitConfig { max_requests: 1000, window_seconds: 60, enabled: true });
    let security = SecurityConfig::default();
    let f = facts(0xffff_0a00_0001, None, None);
    for i in 0..1000u32 {
        match before_business(&mut limiter, &security, false, &f, format!("id-{}", i), 5_000) {
            Admission::Admitted { headers, .. } => {
                assert_eq!(
                    header_value(&headers, "X-RateLimit-Remaining"),
                    Some((999 - i).to_string())
                );
            }
            Admission::Rejected(_) => panic!("request {} must pass", i + 1),
        }
    }
    match before_business(&mut limiter, &security, false, &f, "id-1001".to_string(), 5_000) {
        Admission::Rejected(reply) => {
            assert_eq!(reply.status, 429);
            assert_eq!(header_value(&reply.headers, "Retry-After"), Some("60".to_string()));
            assert_eq!(header_value(&reply.headers, "X-Request-Id"), Some("id-1001".to_string()));
            assert_eq!(reply.body, RATE_LIMITED_BODY);
            let body: serde_json::Value = serde_json::from_str(&reply.body).unwrap();
            assert_eq!(body["error"], "RATE_LIMIT_EXCEEDED");
        }
        Admission::Admitted { .. } => panic!("request 1001 must be refused"),
    }
}

#[test]
fn bearer_token_claims_reach_the_business_stage() {
    let secret: &[u8] = b"edge-layer-test-secret-0123456789";
    let now = std::time::SystemTime::now()
        .duration_since(std::time::UNIX_EPOCH)
        .unwrap()
        .as_secs();
    let mut header = Header::new(Algorithm::HS256);
    header.kid = Some("K1".to_string());
    let claims: serde_json::Value = serde_json::from_str(&format!(
        "{{\"sub\":\"user-42\",\"exp\":{},\"iat\":{}}}",
        now + 600,
        now
    ))
    .unwrap();
    let jwt = encode(&header, &claims, &EncodingKey::from_secret(secret)).unwrap();
    let authorization = format!("Bearer {}", jwt);

    let mut limiter = RateLimiter::new(RateLimitConfig::default());
    let auth_config = AuthConfig {
        enabled: true,
        jwks_urls: vec!["https://issuer.example/jwks".to_string()],
        audience: None,
        issuer: None,
        jwks_cache_seconds: 3600,
    };
    let mut validator = JwtValidator::new(auth_config);
    let f = facts(1, Some(&authorization), Some("req-7"));
    let (mut context, token, headers) =
        match before_business(&mut limiter, &SecurityConfig::default(), true, &f, "gen".to_string(), 0) {
            Admission::Admitted { context, token, headers } => (context, token, headers),
            Admission::Rejected(_) => panic!("must pass"),
        };
    assert_eq!(context.correlation_id, "req-7");
    assert_eq!(context.api_version, ApiVersion::V1);
    assert_eq!(header_value(&headers, "X-RateLimit-Limit"), Some("1000".to_string()));
    assert_eq!(header_value(&headers, "X-RateLimit-Reset"), Some("60".to_string()));
    assert_eq!(header_value(&headers, "X-Frame-Options"), Some("DENY".to_string()));
    let token = token.unwrap();
    assert_eq!(token, jwt);

    let mut pending = validator.start(&token).ok().unwrap();
    let outcome = match validator.resume(&mut pending, 0) {
        ValidationAction::Fetch { url, .. } => {
            assert_eq!(url, "https://issuer.example/jwks");
            let jwk: jsonwebtoken::jwk::Jwk = serde_json::from_str(
                "{\"kty\":\"oct\",\"kid\":\"K1\",\"alg\":\"HS256\",\"k\":\"ZWRnZS1sYXllci10ZXN0LXNlY3JldC0wMTIzNDU2Nzg5\"}",
            )
            .unwrap();
            let set = SigningKeySet::new(vec![SigningKey { kid: Some("K1".to_string()), jwk }]);
            match validator.key_fetch_done(&mut pending, Ok(set), 0) {
                ValidationAction::Finished(r) => r,
                ValidationAction::Fetch { .. } => panic!("no second fetch"),
            }
        }
        ValidationAction::Finished(_) => panic!("the key set must be fetched first"),
    };
    attach_auth(&mut context, outcome);
    match &context.auth {
        AuthOutcome::Authenticated(c) => assert_eq!(c.sub, "user-42"),
        AuthOutcome::Anonymous => panic!("claims must be attached"),
    }
    assert_eq!(context.auth.claims().unwrap().sub, "user-42");
    let (name, value) = response_id_header(&context);
    assert_eq!(name, "X-Request-Id");
    assert_eq!(value, "req-7");
}

#[test]
fn invalid_token_leaves_request_anonymous() {
    let mut limiter = RateLimiter::new(RateLimitConfig::default());
    let f = facts(1, Some("Bearer nonsense"), None);
    match before_business(&mut limiter, &SecurityConfig::default(), true, &f, "gen-1".to_string(), 0) {
        Admission::Admitted { mut context, token, .. } => {
            assert_eq!(context.correlation_id, "gen-1");
            assert_eq!(token, Some("nonsense".to_string()));
            let v = JwtValidator::new(AuthConfig::default());
            let r = v.start("nonsense").map(|_| unreachable!());
            attach_auth(&mut context, r);
            assert!(matches!(context.auth, AuthOutcome::Anonymous));
        }
        Admission::Rejected(_) => panic!("must pass"),
    }
}

#[test]
fn no_token_is_validated_when_auth_is_off() {
    let mut limiter = RateLimiter::new(RateLimitConfig::default());
    let f = facts(1, Some("Bearer abc"), None);
    match before_business(&mut limiter, &SecurityConfig::default(), false, &f, "g".to_string(), 0) {
        Admission::Admitted { token, .. } => assert!(token.is_none()),
        Admission::Rejected(_) => panic!("must pass"),
    }
}

#[test]
fn rate_headers_and_reply_parts() {
    let h = rate_limit_headers(&RateStatus { limit: 100, remaining: 7, reset_at: 65_500 }, 5_000);
    assert_eq!(header_value(&h, "X-RateLimit-Limit"), Some("100".to_string()));
    assert_eq!(header_value(&h, "X-RateLimit-Remaining"), Some("7".to_string()));
    assert_eq!(header_value(&h, "X-RateLimit-Reset"), Some("60".to_string()));
    let h = rate_limit_headers(&RateStatus { limit: 1, remaining: 0, reset_at: 10 }, 20);
    assert_eq!(header_value(&h, "X-RateLimit-Reset"), Some("0".to_string()));
    let r = rate_limited_reply("abc");
    assert_eq!(r.status, 429);
    assert_eq!(r.headers.len(), 2);
}

#[test]
fn security_headers_by_mode() {
    let relaxed = security_headers(&SecurityConfig::default());
    assert_eq!(header_value(&relaxed, "X-Content-Type-Options"), Some("nosniff".to_string()));
    assert_eq!(header_value(&relaxed, "X-XSS-Protection"), Some("1; mode=block".to_string()));
    assert_eq!(
        header_value(&relaxed, "Referrer-Policy"),
        Some("strict-origin-when-cross-origin".to_string())
    );
    assert!(header_value(&relaxed, "Strict-Transport-Security").is_none());
    let strict = security_headers(&SecurityConfig::for_mode(true, None));
    assert_eq!(
        header_value(&strict, "Strict-Transport-Security"),
        Some("max-age=31536000; includeSubDomains; preload".to_string())
    );
    assert_eq!(
        header_value(&strict, "Content-Security-Policy"),
        Some(estuary::security::STRICT_CSP.to_string())
    );
    let custom = SecurityConfig::for_mode(false, Some("default-src 'none'".to_string()));
    assert_eq!(custom.csp, "default-src 'none'");
}

#[test]
fn correlation_id_is_kept_or_generated() {
    assert_eq!(correlation_id(Some("abc"), "gen".to_string()), "abc");
    assert_eq!(correlation_id(None, "gen".to_string()), "gen");
}

#[test]
fn decimal_text() {
    assert_eq!(decimal(0), "0");
    assert_eq!(decimal(7), "7");
    assert_eq!(decimal(1000), "1000");
    assert_eq!(decimal(u64::MAX), u64::MAX.to_string());
}
