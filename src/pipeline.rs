//! The per-request decisions of the edge layer, in their fixed order:
//! correlation id, API version, rate limit (which may end the request),
//! security headers, token, and the headers stamped on the way out.

use crate::auth::{bearer_of, bearer_token, AuthOutcome, Claims, AuthError};
use crate::rate_limit::{
    check_step, window_of, RateLimiter, RateStatus, LOOPBACK_CLIENT,
    RETRY_AFTER_SECONDS,
};
use crate::security::{pair_view, security_header_list, security_headers, SecurityConfig};
use crate::text::{before_char, decimal, decimal_seq, opt_text, split_seq, trim, trim_seq};
use crate::version::{detected_version, extract_version, ApiVersion};
use vstd::prelude::*;

verus! {

/// The body of a refused request.
pub const RATE_LIMITED_BODY: &'static str = "{\"error\":\"RATE_LIMIT_EXCEEDED\",\"message\":\"Too many requests. Please try again later.\"}";

/// The name of the correlation-id header.
pub const REQUEST_ID_HEADER: &'static str = "X-Request-Id";

/// The correlation id of a request, as later stages see it.
#[derive(Clone, Debug)]
pub struct RequestId(pub String);

/// The correlation id: the one the request brought, or `generated`.
pub fn correlation_id(existing: Option<&str>, generated: String) -> (r: String)
    ensures
        existing matches Some(e) ==> r@ == e@,
        existing is None ==> r == generated,
{
    match existing {
        Some(e) => e.to_owned(),
        None => generated,
    }
}

/// The first candidate of an X-Forwarded-For value: the text before the
/// first comma, trimmed.
pub fn first_forwarded_candidate(forwarded_for: &str) -> (r: &str)
    ensures
        r@ == trim_seq(split_seq(forwarded_for@, ',')[0]),
{
    trim(before_char(forwarded_for, ','))
}

/// The identity a request is counted under: the address of the first
/// X-Forwarded-For candidate, else that of X-Real-IP, else the loopback
/// address. Each argument is the address the header gave, where it gave
/// a valid one.
pub fn client_identity(forwarded: Option<u128>, real_ip: Option<u128>) -> (r: u128)
    ensures
        r == (match forwarded {
            Some(f) => f,
            None => match real_ip {
                Some(x) => x,
                None => LOOPBACK_CLIENT,
            },
        }),
{
    match forwarded {
        Some(f) => f,
        None => match real_ip {
            Some(x) => x,
            None => LOOPBACK_CLIENT,
        },
    }
}

/// What the edge layer reads from a request.
#[derive(Clone, Debug)]
pub struct RequestFacts {
    pub path: String,
    pub accept: Option<String>,
    pub api_version: Option<String>,
    /// The address of the first X-Forwarded-For candidate, where valid.
    pub forwarded_client: Option<u128>,
    /// The address in X-Real-IP, where valid.
    pub real_ip_client: Option<u128>,
    pub authorization: Option<String>,
    pub request_id: Option<String>,
}

/// What a request carries through the pipeline.
#[derive(Clone, Debug)]
pub struct PipelineContext {
    pub correlation_id: String,
    pub api_version: ApiVersion,
    pub auth: AuthOutcome,
}

/// A finished answer: status, headers and body.
#[derive(Clone, Debug)]
pub struct ReplyParts {
    pub status: u16,
    pub headers: Vec<(String, String)>,
    pub body: String,
}

/// The outcome of the stages before the business stage.
pub enum Admission {
    /// The request ends here with this answer.
    Rejected(ReplyParts),
    /// The request goes on. `token` is the bearer token to validate, where
    /// authentication is on and the request has one; `headers` are to be
    /// placed on the eventual response.
    Admitted { context: PipelineContext, token: Option<String>, headers: Vec<(String, String)> },
}

pub open spec fn string_opt(o: Option<String>) -> Option<Seq<char>> {
    match o {
        Some(s) => Some(s@),
        None => None,
    }
}

/// Whole seconds from `now` until `reset_at` (both in milliseconds), 0 once passed.
pub open spec fn seconds_until(reset_at: u64, now: u64) -> u64 {
    if reset_at > now {
        ((reset_at - now) / 1000) as u64
    } else {
        0
    }
}

/// The rate headers of an admitted request.
pub open spec fn rate_header_list(s: RateStatus, now: u64) -> Seq<(Seq<char>, Seq<char>)> {
    seq![
        ("X-RateLimit-Limit"@, decimal_seq(s.limit as nat)),
        ("X-RateLimit-Remaining"@, decimal_seq(s.remaining as nat)),
        ("X-RateLimit-Reset"@, decimal_seq(seconds_until(s.reset_at, now) as nat)),
    ]
}

fn header(name: &str, value: String) -> (r: (String, String))
    ensures
        pair_view(r) == (name@, value@),
{
    (name.to_owned(), value)
}

/// The rate headers of an admitted request, as `rate_header_list` states.
pub fn rate_limit_headers(s: &RateStatus, now: u64) -> (r: Vec<(String, String)>)
    ensures
        r@.map_values(|p: (String, String)| pair_view(p)) == rate_header_list(*s, now),
{
    let until = if s.reset_at > now {
        (s.reset_at - now) / 1000
    } else {
        0
    };
    let mut v: Vec<(String, String)> = Vec::new();
    v.push(header("X-RateLimit-Limit", decimal(s.limit as u64)));
    v.push(header("X-RateLimit-Remaining", decimal(s.remaining as u64)));
    v.push(header("X-RateLimit-Reset", decimal(until)));
    proof {
        assert(v@.map_values(|p: (String, String)| pair_view(p)) =~= rate_header_list(*s, now));
    }
    v
}

/// The answer to a refused request: status 429, Retry-After of 60 seconds,
/// the correlation id, and the rate-limit error body.
pub fn rate_limited_reply(correlation_id: &str) -> (r: ReplyParts)
    ensures
        r.status == 429,
        r.headers@.map_values(|p: (String, String)| pair_view(p)) == seq![
            ("Retry-After"@, "60"@),
            (REQUEST_ID_HEADER@, correlation_id@),
        ],
        r.body@ == RATE_LIMITED_BODY@,
{
    let mut headers: Vec<(String, String)> = Vec::new();
    let retry = decimal(RETRY_AFTER_SECONDS);
    proof {
        reveal_strlit("60");
        assert(decimal_seq(6) == seq!['6']);
        assert(decimal_seq(60) == decimal_seq(6) + seq!['0']);
        assert(decimal_seq(60) =~= "60"@);
    }
    headers.push(header("Retry-After", retry));
    headers.push(header(REQUEST_ID_HEADER, correlation_id.to_owned()));
    proof {
        assert(headers@.map_values(|p: (String, String)| pair_view(p)) =~= seq![
            ("Retry-After"@, "60"@),
            (REQUEST_ID_HEADER@, correlation_id@),
        ]);
    }
    ReplyParts { status: 429, headers, body: RATE_LIMITED_BODY.to_owned() }
}

/// The token the authentication stage validates: the bearer token, where
/// authentication is on and the request has an Authorization header.
pub open spec fn token_to_validate(auth_enabled: bool, authorization: Option<Seq<char>>) -> Option<
    Seq<char>,
> {
    if auth_enabled && authorization is Some {
        bearer_of(authorization->0)
    } else {
        None
    }
}

/// Runs the stages before the business stage for a request at `now`
/// (milliseconds): assigns the correlation id, detects the API version and
/// counts the request against its client's window. A refused request gets
/// the rate-limited answer; an admitted one its context, the token to
/// validate, and the rate and security headers for its response.
pub fn before_business(
    limiter: &mut RateLimiter,
    security: &SecurityConfig,
    auth_enabled: bool,
    facts: &RequestFacts,
    generated_id: String,
    now: u64,
) -> (r: Admission)
    ensures
        ({
            let client = match facts.forwarded_client {
                Some(f) => f,
                None => match facts.real_ip_client {
                    Some(x) => x,
                    None => LOOPBACK_CLIENT,
                },
            };
            let cfg = old(limiter).spec_config();
            let id = match facts.request_id {
                Some(e) => e@,
                None => generated_id@,
            };
            let answer = if cfg.enabled {
                check_step(cfg, window_of(old(limiter)@, client), now).0
            } else {
                Ok(crate::rate_limit::bypass_status(cfg, now))
            };
            &&& final(limiter).spec_config() == cfg
            &&& cfg.enabled ==> final(limiter)@ == old(limiter)@.insert(
                client,
                check_step(cfg, window_of(old(limiter)@, client), now).1,
            )
            &&& !cfg.enabled ==> final(limiter)@ == old(limiter)@
            &&& answer is Err <==> r is Rejected
            &&& r matches Admission::Rejected(reply) ==> reply.status == 429 && reply.body@
                == RATE_LIMITED_BODY@ && reply.headers@.map_values(|p: (String, String)| pair_view(p))
                == seq![("Retry-After"@, "60"@), (REQUEST_ID_HEADER@, id)]
            &&& r matches Admission::Admitted { context, token, headers } ==> {
                &&& context.correlation_id@ == id
                &&& context.api_version == detected_version(
                    facts.path@,
                    string_opt(facts.accept),
                    string_opt(facts.api_version),
                )
                &&& context.auth is Anonymous
                &&& string_opt(token) == token_to_validate(auth_enabled, string_opt(facts.authorization))
                &&& answer matches Ok(s) && headers@.map_values(|p: (String, String)| pair_view(p))
                    == rate_header_list(s, now) + security_header_list(*security)
            }
        }),
{
    let existing = match &facts.request_id {
        Some(e) => Some(e.as_str()),
        None => None,
    };
    let id = correlation_id(existing, generated_id);
    let accept = match &facts.accept {
        Some(a) => Some(a.as_str()),
        None => None,
    };
    let requested = match &facts.api_version {
        Some(a) => Some(a.as_str()),
        None => None,
    };
    let version = extract_version(facts.path.as_str(), accept, requested);
    proof {
        assert(opt_text(accept) == string_opt(facts.accept));
        assert(opt_text(requested) == string_opt(facts.api_version));
    }
    let client = client_identity(facts.forwarded_client, facts.real_ip_client);
    match limiter.check_rate_limit(client, now) {
        Err(_) => Admission::Rejected(rate_limited_reply(id.as_str())),
        Ok(status) => {
            let mut headers = rate_limit_headers(&status, now);
            let sec = security_headers(security);
            let ghost rv = headers@.map_values(|p: (String, String)| pair_view(p));
            let ghost sv = sec@.map_values(|p: (String, String)| pair_view(p));
            let mut k: usize = 0;
            while k < sec.len()
                invariant
                    k <= sec@.len(),
                    sv == sec@.map_values(|p: (String, String)| pair_view(p)),
                    headers@.map_values(|p: (String, String)| pair_view(p)) == rv + sv.take(k as int),
                decreases sec@.len() - k,
            {
                let ghost before = headers@.map_values(|p: (String, String)| pair_view(p));
                headers.push((sec[k].0.clone(), sec[k].1.clone()));
                proof {
                    assert(sv.take(k + 1) =~= sv.take(k as int).push(sv[k as int]));
                    assert(headers@.map_values(|p: (String, String)| pair_view(p)) =~= before.push(
                        sv[k as int],
                    ));
                }
                k = k + 1;
            }
            proof {
                assert(sv.take(sec@.len() as int) =~= sv);
            }
            let token = if auth_enabled {
                match &facts.authorization {
                    Some(a) => match bearer_token(a.as_str()) {
                        Some(t) => Some(t.to_owned()),
                        None => None,
                    },
                    None => None,
                }
            } else {
                None
            };
            Admission::Admitted {
                context: PipelineContext { correlation_id: id, api_version: version, auth: AuthOutcome::Anonymous },
                token,
                headers,
            }
        },
    }
}

/// The authentication stage's result placed in the context: validated
/// claims make the request authenticated, a failure leaves it anonymous.
pub fn attach_auth(context: &mut PipelineContext, validated: Result<Claims, AuthError>)
    ensures
        final(context).correlation_id == old(context).correlation_id,
        final(context).api_version == old(context).api_version,
        validated matches Ok(c) ==> final(context).auth == AuthOutcome::Authenticated(c),
        validated is Err ==> final(context).auth == old(context).auth,
{
    if let Ok(c) = validated {
        context.auth = AuthOutcome::Authenticated(c);
    }
}

/// The header stamped on every response on its way out: the correlation id.
pub fn response_id_header(context: &PipelineContext) -> (r: (String, String))
    ensures
        pair_view(r) == (REQUEST_ID_HEADER@, context.correlation_id@),
{
    (REQUEST_ID_HEADER.to_owned(), context.correlation_id.clone())
}

} // verus!
