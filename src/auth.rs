//! Authentication settings, token claims, authentication errors and the
//! checks made on a bearer header and on a client assertion.

use crate::error::{ErrorCode, ErrorDetails};
use crate::text::{has_prefix, starts_with};
use vstd::prelude::*;

verus! {

/// Authentication settings.
#[derive(Clone, Debug)]
pub struct AuthConfig {
    /// Whether bearer tokens are validated at all.
    pub enabled: bool,
    /// Issuer key-set URLs, tried in this order.
    pub jwks_urls: Vec<String>,
    /// Required audience, if any.
    pub audience: Option<String>,
    /// Required issuer, if any.
    pub issuer: Option<String>,
    /// How long a fetched key set is served before it is fetched again, in seconds.
    pub jwks_cache_seconds: u64,
}

impl Default for AuthConfig {
    fn default() -> (r: Self)
        ensures
            !r.enabled,
            r.jwks_urls@.len() == 0,
            r.audience is None,
            r.issuer is None,
            r.jwks_cache_seconds == 3600,
    {
        AuthConfig {
            enabled: false,
            jwks_urls: Vec::new(),
            audience: None,
            issuer: None,
            jwks_cache_seconds: 3600,
        }
    }
}

fn clone_strings(v: &Vec<String>) -> (r: Vec<String>)
    ensures
        r@ == v@,
{
    let mut out: Vec<String> = Vec::new();
    let mut i: usize = 0;
    while i < v.len()
        invariant
            i <= v@.len(),
            out@ == v@.take(i as int),
        decreases v@.len() - i,
    {
        out.push(v[i].clone());
        proof {
            assert(v@.take(i + 1) =~= v@.take(i as int).push(v@[i as int]));
        }
        i = i + 1;
    }
    proof {
        assert(v@.take(v@.len() as int) =~= v@);
    }
    out
}

fn clone_text(o: &Option<String>) -> (r: Option<String>)
    ensures
        r == *o,
{
    match o {
        Some(s) => Some(s.clone()),
        None => None,
    }
}

impl AuthConfig {
    /// The authentication part of the service settings.
    pub fn from_settings(c: &crate::config::AuthConfig) -> (r: AuthConfig)
        ensures
            r.enabled == c.enabled,
            r.jwks_urls@ == c.jwks_urls@,
            r.audience == c.audience,
            r.issuer == c.issuer,
            r.jwks_cache_seconds == c.jwks_cache_seconds,
    {
        AuthConfig {
            enabled: c.enabled,
            jwks_urls: clone_strings(&c.jwks_urls),
            audience: clone_text(&c.audience),
            issuer: clone_text(&c.issuer),
            jwks_cache_seconds: c.jwks_cache_seconds,
        }
    }
}

impl From<&crate::config::AuthConfig> for AuthConfig {
    /// As `AuthConfig::from_settings`.
    fn from(c: &crate::config::AuthConfig) -> (r: AuthConfig) {
        AuthConfig::from_settings(c)
    }
}

impl vstd::std_specs::convert::FromSpecImpl<&crate::config::AuthConfig> for AuthConfig {
    /// Two vectors with the same items need not be equal values, so no value
    /// is named here; `from_settings` states the fields.
    open spec fn obeys_from_spec() -> bool {
        false
    }

    open spec fn from_spec(c: &crate::config::AuthConfig) -> AuthConfig {
        AuthConfig {
            enabled: c.enabled,
            jwks_urls: c.jwks_urls,
            audience: c.audience,
            issuer: c.issuer,
            jwks_cache_seconds: c.jwks_cache_seconds,
        }
    }
}

/// The claims of a validated token.
#[derive(Clone, Debug)]
pub struct Claims {
    pub sub: String,
    pub exp: u64,
    pub iat: u64,
    pub iss: Option<String>,
    pub aud: Option<String>,
    /// The whole payload the claims were read from: every further claim of
    /// the token can be read from it.
    pub custom: serde_json::Value,
}

/// Authentication failures.
#[derive(Clone, Debug)]
pub enum AuthError {
    InvalidToken(String),
    MissingAuthHeader,
    InvalidAuthHeader,
    JwksFetchError(String),
    AuthRequired,
}

/// The HTTP status an authentication error is answered with.
pub open spec fn auth_error_status(e: AuthError) -> u16 {
    match e {
        AuthError::JwksFetchError(_) => 503,
        _ => 401,
    }
}

fn text(s: &str) -> (r: String)
    ensures
        r@ == s@,
{
    s.to_owned()
}

impl AuthError {
    /// The error's text.
    pub fn message(&self) -> (r: String)
        ensures
            self matches AuthError::InvalidToken(m) ==> r@ == "Invalid token: "@ + m@,
            self is MissingAuthHeader ==> r@ == "Missing authorization header"@,
            self is InvalidAuthHeader ==> r@ == "Invalid authorization header format"@,
            self matches AuthError::JwksFetchError(m) ==> r@ == "Failed to fetch JWKS: "@ + m@,
            self is AuthRequired ==> r@ == "Authentication required"@,
    {
        match self {
            AuthError::InvalidToken(m) => {
                let mut s = text("Invalid token: ");
                s.append(m.as_str());
                s
            },
            AuthError::MissingAuthHeader => text("Missing authorization header"),
            AuthError::InvalidAuthHeader => text("Invalid authorization header format"),
            AuthError::JwksFetchError(m) => {
                let mut s = text("Failed to fetch JWKS: ");
                s.append(m.as_str());
                s
            },
            AuthError::AuthRequired => text("Authentication required"),
        }
    }

    /// The answer to this error: status, code, message and details. A
    /// failed key fetch is a service outage; every other failure is
    /// "unauthorized".
    pub fn to_reply(self) -> (r: crate::error::ErrorReply)
        ensures
            r.status == auth_error_status(self),
            self is JwksFetchError ==> r.code == ErrorCode::ServiceUnavailable,
            !(self is JwksFetchError) ==> r.code == ErrorCode::Unauthorized,
            self matches AuthError::InvalidToken(m) ==> (r.details matches Some(d) && d.context == Some(m)),
            self matches AuthError::JwksFetchError(m) ==> (r.details matches Some(d) && d.context == Some(m)),
    {
        match self {
            AuthError::InvalidToken(m) => crate::error::ErrorReply {
                status: 401,
                code: ErrorCode::Unauthorized,
                message: text("Invalid authentication token"),
                details: Some(ErrorDetails { validation_errors: None, context: Some(m) }),
            },
            AuthError::MissingAuthHeader => crate::error::ErrorReply {
                status: 401,
                code: ErrorCode::Unauthorized,
                message: text("Missing authorization header"),
                details: None,
            },
            AuthError::InvalidAuthHeader => crate::error::ErrorReply {
                status: 401,
                code: ErrorCode::Unauthorized,
                message: text("Invalid authorization header format"),
                details: None,
            },
            AuthError::JwksFetchError(m) => crate::error::ErrorReply {
                status: 503,
                code: ErrorCode::ServiceUnavailable,
                message: text("Authentication service unavailable"),
                details: Some(ErrorDetails { validation_errors: None, context: Some(m) }),
            },
            AuthError::AuthRequired => crate::error::ErrorReply {
                status: 401,
                code: ErrorCode::Unauthorized,
                message: text("Authentication required"),
                details: None,
            },
        }
    }
}

/// The token of an Authorization value of the form `Bearer <token>`.
pub open spec fn bearer_of(authorization: Seq<char>) -> Option<Seq<char>> {
    if has_prefix(authorization, "Bearer "@) {
        Some(authorization.skip(7))
    } else {
        None
    }
}

/// The token of an Authorization value, as `bearer_of` states it.
pub fn bearer_token(authorization: &str) -> (r: Option<&str>)
    ensures
        r matches Some(t) ==> bearer_of(authorization@) == Some(t@),
        r is None ==> bearer_of(authorization@) is None,
{
    proof {
        reveal_strlit("Bearer ");
    }
    if starts_with(authorization, "Bearer ") {
        let n = authorization.unicode_len();
        let t = authorization.substring_char(7, n);
        proof {
            assert(t@ =~= authorization@.skip(7));
        }
        Some(t)
    } else {
        None
    }
}

/// A client assertion is accepted when its subject is the client, and its
/// issuer, where it has one, is the client too.
pub open spec fn assertion_accepted(c: Claims, client_id: Seq<char>) -> bool {
    &&& c.sub@ == client_id
    &&& c.iss matches Some(iss) ==> iss@ == client_id
}

/// Finishes a client assertion check (private-key JWT client
/// authentication): `validated` is the outcome of validating the assertion
/// token. Fails closed: a failed validation is passed on, and a subject or
/// issuer that is not `client_id` is an error.
pub fn validate_client_assertion(validated: Result<Claims, AuthError>, client_id: &str) -> (r: Result<
    (),
    AuthError,
>)
    ensures
        r is Ok <==> (validated matches Ok(c) && assertion_accepted(c, client_id@)),
        validated matches Err(e) ==> r == Err::<(), AuthError>(e),
        validated matches Ok(c) && !assertion_accepted(c, client_id@) ==> (r matches Err(e)
            && e is InvalidToken),
{
    let claims = match validated {
        Ok(c) => c,
        Err(e) => return Err(e),
    };
    if !crate::text::same_text(claims.sub.as_str(), client_id) {
        return Err(AuthError::InvalidToken(text("Client ID mismatch in sub claim")));
    }
    if let Some(iss) = &claims.iss {
        if !crate::text::same_text(iss.as_str(), client_id) {
            return Err(AuthError::InvalidToken(text("Client ID mismatch in iss claim")));
        }
    }
    Ok(())
}

/// What a request carries after the authentication stage: the claims of a
/// validated token, or nothing.
#[derive(Clone, Debug)]
pub enum AuthOutcome {
    Authenticated(Claims),
    Anonymous,
}

impl AuthOutcome {
    /// The outcome of a validation: a failure makes the request anonymous.
    pub fn from_validation(r: Result<Claims, AuthError>) -> (o: AuthOutcome)
        ensures
            r matches Ok(c) ==> o == AuthOutcome::Authenticated(c),
            r is Err ==> o == AuthOutcome::Anonymous,
    {
        match r {
            Ok(c) => AuthOutcome::Authenticated(c),
            Err(_) => AuthOutcome::Anonymous,
        }
    }

    /// The claims, where authenticated.
    pub fn claims(&self) -> (r: Option<&Claims>)
        ensures
            self matches AuthOutcome::Authenticated(c) ==> (r matches Some(x) && *x == c),
            self is Anonymous ==> r is None,
    {
        match self {
            AuthOutcome::Authenticated(c) => Some(c),
            AuthOutcome::Anonymous => None,
        }
    }
}

} // verus!
