//! Bearer-token validation against the key sets of the configured issuers.
//!
//! Validation alternates between decisions, taken here, and key-set fetches,
//! which the caller performs: `start` reads the token's header, `resume`
//! walks the issuers in order and either settles the token or asks for a
//! fetch, and `key_fetch_done` takes the fetch's outcome and walks on.

use crate::auth::{AuthConfig, AuthError, Claims};
use crate::keyset::{
    freshness_of, has_kid, opt_string, CachedKeys, Freshness, KeySetCache, SigningKeySet,
};
use crate::rate_limit::{millis_of, to_millis};
use jsonwebtoken::errors::Error as JwtError;
use jsonwebtoken::jwk::Jwk;
use jsonwebtoken::{Algorithm, DecodingKey, Validation};
use serde_json::Value;
use vstd::prelude::*;

verus! {

#[verifier::external_type_specification]
#[verifier::external_body]
pub struct ExAlgorithm(Algorithm);

#[verifier::external_type_specification]
#[verifier::external_body]
pub struct ExDecodingKey(DecodingKey);

#[verifier::external_type_specification]
#[verifier::external_body]
pub struct ExValidation(Validation);

#[verifier::external_type_specification]
#[verifier::external_body]
pub struct ExJwtError(JwtError);

#[verifier::external_type_specification]
#[verifier::external_body]
pub struct ExValue(Value);

/// What `jsonwebtoken::decode_header` reads from a token: `None` when the
/// header does not decode, else its key id (if any) and its algorithm.
pub uninterp spec fn token_header(token: Seq<char>) -> Option<(Option<Seq<char>>, Algorithm)>;

/// The key id a token's header names: `None` when the header does not
/// decode, `Some(None)` when it has no `kid`.
pub open spec fn header_kid(token: Seq<char>) -> Option<Option<Seq<char>>> {
    match token_header(token) {
        Some((kid, _)) => Some(kid),
        None => None,
    }
}

/// The algorithm a token's header declares, where the header decodes.
pub open spec fn header_alg(token: Seq<char>) -> Option<Algorithm> {
    match token_header(token) {
        Some((_, alg)) => Some(alg),
        None => None,
    }
}

/// Relies on `jsonwebtoken::decode_header`: it parses the token's header,
/// without checking the signature, and the key id and algorithm are read
/// from it. The outcome depends on the token's text alone.
#[verifier::external_body]
fn read_header(token: &str) -> (r: Result<(Option<String>, Algorithm), JwtError>)
    ensures
        r is Ok <==> token_header(token@) is Some,
        r matches Ok(h) ==> token_header(token@) == Some((opt_string(h.0), h.1)),
{
    jsonwebtoken::decode_header(token).map(|h| (h.kid, h.alg))
}

/// The verification key `jsonwebtoken::DecodingKey::from_jwk` builds from a
/// JWK; it depends on the JWK alone.
pub uninterp spec fn jwk_key(jwk: Jwk) -> DecodingKey;

/// Whether a verification key belongs to the algorithm family of `alg`
/// (HMAC, RSA, EC or EdDSA), as jsonwebtoken records it in the key.
pub uninterp spec fn key_fits_alg(key: DecodingKey, alg: Algorithm) -> bool;

/// The algorithms a jsonwebtoken `Validation` policy accepts.
pub uninterp spec fn policy_algorithms(policy: Validation) -> Seq<Algorithm>;

/// Whether a jsonwebtoken `Validation` policy checks signatures (its
/// `validate_signature` flag, which only
/// `insecure_disable_signature_validation` turns off).
pub uninterp spec fn policy_checks_signature(policy: Validation) -> bool;

/// Relies on `jsonwebtoken::DecodingKey::from_jwk`: builds a verification
/// key of the JWK's algorithm family, or fails on malformed key material.
pub assume_specification[ DecodingKey::from_jwk ](jwk: &Jwk) -> (r: Result<DecodingKey, JwtError>)
    ensures
        r matches Ok(k) ==> k == jwk_key(*jwk),
;

/// Relies on `jsonwebtoken::Validation::new`: a policy that accepts the one
/// given algorithm and checks expiry.
pub assume_specification[ Validation::new ](alg: Algorithm) -> (r: Validation)
    ensures
        policy_algorithms(r) == seq![alg],
        policy_checks_signature(r),
;

/// Relies on `jsonwebtoken::Validation::set_audience`: the token's `aud`,
/// where present, must then be `aud`; the accepted algorithms stay.
#[verifier::external_body]
fn require_audience(policy: &mut Validation, aud: &str)
    ensures
        policy_algorithms(*final(policy)) == policy_algorithms(*old(policy)),
        policy_checks_signature(*final(policy)) == policy_checks_signature(*old(policy)),
{
    policy.set_audience(&[aud]);
}

/// Relies on `jsonwebtoken::Validation::set_issuer`: the token's `iss`,
/// where present, must then be `iss`; the accepted algorithms stay.
#[verifier::external_body]
fn require_issuer(policy: &mut Validation, iss: &str)
    ensures
        policy_algorithms(*final(policy)) == policy_algorithms(*old(policy)),
        policy_checks_signature(*final(policy)) == policy_checks_signature(*old(policy)),
{
    policy.set_issuer(&[iss]);
}

/// The JSON payload of a token: the decoded middle part of its text.
pub uninterp spec fn token_payload(token: Seq<char>) -> Value;

/// Relies on `jsonwebtoken::decode`: checks the signature against `key`, the
/// algorithm against `policy` and the key's family, and the standard claims;
/// on success the payload is handed back as JSON. Whether it succeeds
/// depends on the current time, so only what holds of a success is stated:
/// the header's algorithm is one the policy accepts, the key belongs to the
/// family of every accepted algorithm, and the payload is the token's own.
/// The first two hold only of a policy that checks signatures, which is
/// therefore required.
#[verifier::external_body]
fn decode_payload(token: &str, key: &DecodingKey, policy: &Validation) -> (r: Result<Value, JwtError>)
    requires
        policy_checks_signature(*policy),
    ensures
        r matches Ok(v) ==> v == token_payload(token@),
        r is Ok ==> (header_alg(token@) matches Some(a) && policy_algorithms(*policy).contains(a)),
        r is Ok ==> forall|i: int|
            0 <= i < policy_algorithms(*policy).len() ==> key_fits_alg(*key, #[trigger] policy_algorithms(*policy)[i]),
{
    jsonwebtoken::decode::<Value>(token, key, policy).map(|d| d.claims)
}

/// What `serde_json::Value::pointer` finds in a JSON value at a pointer.
pub uninterp spec fn json_at(v: Value, pointer: Seq<char>) -> Option<Value>;

/// What `serde_json::Value::as_str` reads: the text of a JSON string.
pub uninterp spec fn json_text(v: Value) -> Option<Seq<char>>;

/// What `serde_json::Value::as_u64` reads: a JSON number that is a `u64`.
pub uninterp spec fn json_u64(v: Value) -> Option<u64>;

/// What `serde_json::Value::is_null` reads: whether the value is `null`.
pub uninterp spec fn json_null(v: Value) -> bool;

/// Relies on `serde_json::Value::pointer`: the value at a JSON pointer,
/// which depends on the value and the pointer alone.
pub assume_specification<'a>[ Value::pointer ](v: &'a Value, pointer: &str) -> (r: Option<&'a Value>)
    ensures
        r is None <==> json_at(*v, pointer@) is None,
        r matches Some(x) ==> json_at(*v, pointer@) == Some(*x),
;

/// Relies on `serde_json::Value::as_str`: the text of a JSON string.
pub assume_specification[ Value::as_str ](v: &Value) -> (r: Option<&str>)
    ensures
        r is None <==> json_text(*v) is None,
        r matches Some(s) ==> json_text(*v) == Some(s@),
;

/// Relies on `serde_json::Value::as_u64`: a JSON number that is a `u64`.
pub assume_specification[ Value::as_u64 ](v: &Value) -> (r: Option<u64>)
    ensures
        r == json_u64(*v),
;

/// Relies on the derived `Clone` of `serde_json::Value`: a copy holds the
/// same JSON value.
pub assume_specification[ <Value as Clone>::clone ](v: &Value) -> (r: Value)
    ensures
        r == *v,
;

/// Relies on `serde_json::Value::is_null`: the JSON `null`.
pub assume_specification[ Value::is_null ](v: &Value) -> (r: bool)
    ensures
        r == json_null(*v),
;

/// What a payload holds under the name of an optional text claim.
#[derive(Clone, Debug)]
pub enum ClaimText {
    /// Missing, or `null`.
    Absent,
    Text(String),
    /// Present with a value that is not text.
    Other,
}

/// What a JSON value holds at a pointer, read as an optional text claim.
pub enum FieldText {
    Absent,
    Text(Seq<char>),
    Other,
}

pub open spec fn field_view(t: ClaimText) -> FieldText {
    match t {
        ClaimText::Absent => FieldText::Absent,
        ClaimText::Text(s) => FieldText::Text(s@),
        ClaimText::Other => FieldText::Other,
    }
}

pub open spec fn text_field(v: Value, pointer: Seq<char>) -> FieldText {
    match json_at(v, pointer) {
        None => FieldText::Absent,
        Some(x) => if json_null(x) {
            FieldText::Absent
        } else {
            match json_text(x) {
                Some(s) => FieldText::Text(s),
                None => FieldText::Other,
            }
        },
    }
}

pub open spec fn number_field(v: Value, pointer: Seq<char>) -> Option<u64> {
    match json_at(v, pointer) {
        Some(x) => json_u64(x),
        None => None,
    }
}

/// What a set of claims holds.
pub struct ClaimsView {
    pub sub: Seq<char>,
    pub exp: u64,
    pub iat: u64,
    pub iss: Option<Seq<char>>,
    pub aud: Option<Seq<char>>,
    pub custom: Value,
}

pub open spec fn claims_view(c: Claims) -> ClaimsView {
    ClaimsView {
        sub: c.sub@,
        exp: c.exp,
        iat: c.iat,
        iss: opt_string(c.iss),
        aud: opt_string(c.aud),
        custom: c.custom,
    }
}

/// The claims fields give: `sub` text, `exp` and `iat` unsigned numbers,
/// and `iss` and `aud` text or absent, with the whole payload `custom`
/// kept beside them; `None` when any of these fails.
pub open spec fn claims_of_fields(
    sub: FieldText,
    exp: Option<u64>,
    iat: Option<u64>,
    iss: FieldText,
    aud: FieldText,
    custom: Value,
) -> Option<ClaimsView> {
    if sub is Text && exp is Some && iat is Some && !(iss is Other) && !(aud is Other) {
        Some(
            ClaimsView {
                sub: sub->Text_0,
                exp: exp->0,
                iat: iat->0,
                iss: if iss is Text {
                    Some(iss->Text_0)
                } else {
                    None
                },
                aud: if aud is Text {
                    Some(aud->Text_0)
                } else {
                    None
                },
                custom,
            },
        )
    } else {
        None
    }
}

/// The claims a JSON payload carries, as `claims_of_fields` reads them
/// from `/sub`, `/exp`, `/iat`, `/iss` and `/aud`, with the payload itself
/// kept for every further claim.
pub open spec fn payload_claims(v: Value) -> Option<ClaimsView> {
    claims_of_fields(
        text_field(v, "/sub"@),
        number_field(v, "/exp"@),
        number_field(v, "/iat"@),
        text_field(v, "/iss"@),
        text_field(v, "/aud"@),
        v,
    )
}

fn text_claim(payload: &Value, pointer: &str) -> (r: ClaimText)
    ensures
        field_view(r) == text_field(*payload, pointer@),
{
    match payload.pointer(pointer) {
        None => ClaimText::Absent,
        Some(v) => if v.is_null() {
            ClaimText::Absent
        } else {
            match v.as_str() {
                Some(s) => ClaimText::Text(s.to_owned()),
                None => ClaimText::Other,
            }
        },
    }
}

fn number_claim(payload: &Value, pointer: &str) -> (r: Option<u64>)
    ensures
        r == number_field(*payload, pointer@),
{
    match payload.pointer(pointer) {
        Some(v) => v.as_u64(),
        None => None,
    }
}

/// The claims of a payload: `sub` must be text, `exp` and `iat` unsigned
/// numbers, and `iss` and `aud` text where present.
pub fn claims_from_fields(
    sub: ClaimText,
    exp: Option<u64>,
    iat: Option<u64>,
    iss: ClaimText,
    aud: ClaimText,
    custom: Value,
) -> (r: Result<Claims, AuthError>)
    ensures
        r is Ok <==> claims_of_fields(field_view(sub), exp, iat, field_view(iss), field_view(aud), custom) is Some,
        r matches Ok(c) ==> claims_of_fields(field_view(sub), exp, iat, field_view(iss), field_view(aud), custom)
            == Some(claims_view(c)),
        r matches Err(e) ==> e is InvalidToken,
{
    let malformed = AuthError::InvalidToken("Token claims are missing or malformed".to_owned());
    let sub = match sub {
        ClaimText::Text(s) => s,
        _ => return Err(malformed),
    };
    let (exp, iat) = match (exp, iat) {
        (Some(e), Some(i)) => (e, i),
        _ => return Err(malformed),
    };
    let iss = match iss {
        ClaimText::Absent => None,
        ClaimText::Text(s) => Some(s),
        ClaimText::Other => return Err(malformed),
    };
    let aud = match aud {
        ClaimText::Absent => None,
        ClaimText::Text(s) => Some(s),
        ClaimText::Other => return Err(malformed),
    };
    Ok(Claims { sub, exp, iat, iss, aud, custom })
}

/// The claims of a decoded payload, as `payload_claims` states.
pub fn claims_from_payload(payload: Value) -> (r: Result<Claims, AuthError>)
    ensures
        r is Ok <==> payload_claims(payload) is Some,
        r matches Ok(c) ==> payload_claims(payload) == Some(claims_view(c)),
        r matches Err(e) ==> e is InvalidToken,
{
    let sub = text_claim(&payload, "/sub");
    let exp = number_claim(&payload, "/exp");
    let iat = number_claim(&payload, "/iat");
    let iss = text_claim(&payload, "/iss");
    let aud = text_claim(&payload, "/aud");
    claims_from_fields(sub, exp, iat, iss, aud, payload)
}

/// What is handed to the signature and claim checks: the position of the
/// key within the issuer's key set, the algorithm the token's header
/// declares, and the audience and issuer the token must name, if any.
pub struct VerificationRequest {
    pub key_index: usize,
    pub alg: Algorithm,
    pub audience: Option<String>,
    pub issuer: Option<String>,
}

/// What a verification request holds.
pub struct RequestView {
    pub key_index: int,
    pub alg: Algorithm,
    pub audience: Option<Seq<char>>,
    pub issuer: Option<Seq<char>>,
}

pub open spec fn request_view(q: VerificationRequest) -> RequestView {
    RequestView {
        key_index: q.key_index as int,
        alg: q.alg,
        audience: opt_string(q.audience),
        issuer: opt_string(q.issuer),
    }
}

/// `i` is the position of the first key of `kids` with the id `kid`.
pub open spec fn first_kid(kids: Seq<Option<Seq<char>>>, kid: Seq<char>, i: int) -> bool {
    &&& 0 <= i < kids.len()
    &&& kids[i] == Some(kid)
    &&& forall|j: int| 0 <= j < i ==> kids[j] != Some(kid)
}

/// The request for a token with key id `kid` and header algorithm `alg`,
/// verified with the key set `kids` under `cfg`: the first key with that
/// id, the header's algorithm, and the configured audience and issuer.
pub open spec fn request_fits(
    q: RequestView,
    kids: Seq<Option<Seq<char>>>,
    kid: Seq<char>,
    alg: Algorithm,
    cfg: AuthConfig,
) -> bool {
    &&& first_kid(kids, kid, q.key_index)
    &&& q.alg == alg
    &&& q.audience == opt_string(cfg.audience)
    &&& q.issuer == opt_string(cfg.issuer)
}

fn copy_text(o: &Option<String>) -> (r: Option<String>)
    ensures
        r == *o,
{
    match o {
        Some(s) => Some(s.clone()),
        None => None,
    }
}

/// A token's claims meet the audience and issuer of a request: each that
/// the request names, the claims name exactly.
pub open spec fn meets_request(c: ClaimsView, q: RequestView) -> bool {
    &&& q.audience is Some ==> c.aud == q.audience
    &&& q.issuer is Some ==> c.iss == q.issuer
}

fn same_opt(a: &Option<String>, b: &Option<String>) -> (r: bool)
    ensures
        r == (opt_string(*a) == opt_string(*b)),
{
    match (a, b) {
        (Some(x), Some(y)) => crate::text::same_text(x.as_str(), y.as_str()),
        (None, None) => true,
        _ => false,
    }
}

/// The claims of a payload that passed the signature and standard checks,
/// accepted when they name exactly the audience and issuer that `q` names,
/// where it names them. Every refusal is an invalid token.
pub fn accept_payload(payload: Value, q: &VerificationRequest) -> (r: Result<Claims, AuthError>)
    ensures
        r is Ok <==> (payload_claims(payload) matches Some(c) && meets_request(c, request_view(*q))),
        r matches Ok(c) ==> payload_claims(payload) == Some(claims_view(c)),
        r matches Err(e) ==> e is InvalidToken,
{
    let claims = claims_from_payload(payload)?;
    if q.audience.is_some() && !same_opt(&claims.aud, &q.audience) {
        return Err(AuthError::InvalidToken("Token audience does not match".to_owned()));
    }
    if q.issuer.is_some() && !same_opt(&claims.iss, &q.issuer) {
        return Err(AuthError::InvalidToken("Token issuer does not match".to_owned()));
    }
    Ok(claims)
}

/// Verifies `token` with the key `keys.keys[q.key_index]` under request
/// `q`: the key is built from its JWK, the policy accepts `q.alg` only and
/// requires `q.audience` and `q.issuer` where given, and the payload of a
/// token that passes is read as claims, which must then name exactly the
/// requested audience and issuer. Every failure is an invalid token. A
/// success carries exactly the claims of the token's own payload, the
/// header declared `q.alg`, and the key belongs to that algorithm's family.
pub fn verify_under(token: &str, keys: &SigningKeySet, q: &VerificationRequest) -> (r: Result<Claims, AuthError>)
    requires
        q.key_index < keys.keys@.len(),
    ensures
        r matches Err(e) ==> e is InvalidToken,
        r matches Ok(c) ==> payload_claims(token_payload(token@)) == Some(claims_view(c)),
        r matches Ok(c) ==> meets_request(claims_view(c), request_view(*q)),
        r is Ok ==> header_alg(token@) == Some(q.alg),
        r is Ok ==> key_fits_alg(jwk_key(keys.keys@[q.key_index as int].jwk), q.alg),
{
    let key = match DecodingKey::from_jwk(&keys.keys[q.key_index].jwk) {
        Ok(k) => k,
        Err(e) => return Err(AuthError::InvalidToken(e.to_string())),
    };
    let mut policy = Validation::new(q.alg);
    if let Some(aud) = &q.audience {
        require_audience(&mut policy, aud.as_str());
    }
    if let Some(iss) = &q.issuer {
        require_issuer(&mut policy, iss.as_str());
    }
    let payload = match decode_payload(token, &key, &policy) {
        Ok(payload) => payload,
        Err(e) => return Err(AuthError::InvalidToken(e.to_string())),
    };
    proof {
        assert(policy_algorithms(policy)[0] == q.alg);
    }
    accept_payload(payload, q)
}

/// A token whose header has been read, on its way through the issuers.
pub struct PendingToken {
    token: String,
    kid: String,
    alg: Algorithm,
    next: usize,
    request: Option<VerificationRequest>,
}

impl PendingToken {
    pub closed spec fn token(&self) -> Seq<char> {
        self.token@
    }

    /// The key id the token's header names.
    pub closed spec fn kid(&self) -> Seq<char> {
        self.kid@
    }

    /// The position of the issuer to look at next (or being fetched).
    pub closed spec fn next(&self) -> int {
        self.next as int
    }

    /// The algorithm the token's header declares.
    pub closed spec fn alg(&self) -> Algorithm {
        self.alg
    }

    /// The request the token was last handed to verification under.
    pub closed spec fn request(&self) -> Option<RequestView> {
        match self.request {
            Some(q) => Some(request_view(q)),
            None => None,
        }
    }

    /// The key id the token's header names.
    pub fn key_id(&self) -> (r: &str)
        ensures
            r@ == self.kid(),
    {
        self.kid.as_str()
    }
}

/// What the caller does next.
pub enum ValidationAction {
    /// Fetch the key set of the issuer at position `issuer`, whose URL is
    /// `url`, and hand the outcome to `key_fetch_done`.
    Fetch { issuer: usize, url: String },
    /// Validation has ended with this outcome.
    Finished(Result<Claims, AuthError>),
}

/// Where a walk over the issuers ends.
pub enum Walk {
    /// Verify the token with the key of this issuer.
    Use(int),
    /// This issuer's keys must be fetched first.
    FetchAt(int),
    /// No issuer has a key with the token's key id.
    NoMatch,
}

/// The walk over issuers `from..` at `now`: an issuer whose cached keys are
/// fresh is used when they hold the key id and passed over when not; the
/// first issuer without fresh keys is fetched.
pub open spec fn walk(cache: Seq<Option<CachedKeys>>, kid: Seq<char>, from: int, now: u64, ttl: u64) -> Walk
    decreases cache.len() - from,
{
    if from < 0 || from >= cache.len() {
        Walk::NoMatch
    } else if freshness_of(cache[from], now, ttl) == Freshness::Fresh {
        if has_kid(cache[from]->0.kids, kid) {
            Walk::Use(from)
        } else {
            walk(cache, kid, from + 1, now, ttl)
        }
    } else {
        Walk::FetchAt(from)
    }
}

/// The walk after the fetch for issuer `i` ended: `fetched` holds the key ids
/// of the new set, or `None` when the fetch failed. A new set is used when it
/// holds the key id; after a failure the stale set still serves, when there
/// is one and it holds the key id; otherwise the walk goes on with the next
/// issuer (over `cache`, which then already holds the new set, if any).
pub open spec fn walk_after_fetch(
    cache: Seq<Option<CachedKeys>>,
    kid: Seq<char>,
    i: int,
    fetched: Option<Seq<Option<Seq<char>>>>,
    now: u64,
    ttl: u64,
) -> Walk {
    match fetched {
        Some(kids) => if has_kid(kids, kid) {
            Walk::Use(i)
        } else {
            walk(cache, kid, i + 1, now, ttl)
        },
        None => if cache[i] is Some && has_kid(cache[i]->0.kids, kid) {
            Walk::Use(i)
        } else {
            walk(cache, kid, i + 1, now, ttl)
        },
    }
}

/// The message of a token that no issuer has a key for.
pub open spec fn no_match_message() -> Seq<char> {
    "No matching key found in JWKS"@
}

/// How a walk's end shows in the action handed to the caller.
pub open spec fn action_follows(w: Walk, a: ValidationAction, urls: Seq<String>, next: int) -> bool {
    match w {
        Walk::Use(i) => a is Finished && next == i,
        Walk::FetchAt(i) => (a matches ValidationAction::Fetch { issuer, url } && issuer == i && url@
            == urls[i]@) && next == i,
        Walk::NoMatch => a matches ValidationAction::Finished(Err(AuthError::InvalidToken(m)))
            && m@ == no_match_message(),
    }
}

/// A key id that no cached key set holds never leads a walk to verify the
/// token: the walk asks for a fetch or ends with "no matching key", and when
/// every remaining issuer's keys are fresh it ends with "no matching key".
pub proof fn lemma_absent_kid_never_matches(
    cache: Seq<Option<CachedKeys>>,
    kid: Seq<char>,
    from: int,
    now: u64,
    ttl: u64,
)
    requires
        forall|i: int| 0 <= i < cache.len() && #[trigger] cache[i] is Some ==> !has_kid(cache[i]->0.kids, kid),
    ensures
        !(walk(cache, kid, from, now, ttl) is Use),
        (forall|i: int| from <= i < cache.len() ==> #[trigger] freshness_of(cache[i], now, ttl) == Freshness::Fresh)
            ==> walk(cache, kid, from, now, ttl) is NoMatch,
    decreases cache.len() - from,
{
    if 0 <= from < cache.len() {
        lemma_absent_kid_never_matches(cache, kid, from + 1, now, ttl);
    }
}

/// No cached key set holds the key id `kid`.
pub open spec fn kid_absent(cache: Seq<Option<CachedKeys>>, kid: Seq<char>) -> bool {
    forall|i: int| 0 <= i < cache.len() && #[trigger] cache[i] is Some ==> !has_kid(cache[i]->0.kids, kid)
}

/// One step of a validation whose key id no key set holds: storing a
/// fetched set without the key id keeps it absent from the cache, and the
/// step ends either in a fetch request or in "no matching key". By
/// induction over the steps of `resume` and `key_fetch_done`, a token whose
/// key id is in no issuer's key set, fetched or cached, fails with
/// "no matching key" and carries no claims.
pub proof fn lemma_absent_kid_run_step(
    cache: Seq<Option<CachedKeys>>,
    kid: Seq<char>,
    i: int,
    fetched: Option<Seq<Option<Seq<char>>>>,
    now: u64,
    ttl: u64,
    a: ValidationAction,
    urls: Seq<String>,
    next: int,
)
    requires
        0 <= i < cache.len(),
        kid_absent(cache, kid),
        fetched matches Some(k) ==> !has_kid(k, kid),
        action_follows(walk_after_fetch(
            after_fetch(cache, i, fetched, now),
            kid,
            i,
            fetched,
            now,
            ttl,
        ), a, urls, next),
    ensures
        kid_absent(
            after_fetch(cache, i, fetched, now),
            kid,
        ),
        a is Fetch || (a matches ValidationAction::Finished(Err(AuthError::InvalidToken(m))) && m@
            == no_match_message()),
{
    let c = after_fetch(cache, i, fetched, now);
    assert(kid_absent(c, kid));
    lemma_absent_kid_after_fetch(c, kid, i, fetched, now, ttl);
}

/// The cache after a fetch for issuer `i` at `now`: the fetched key ids
/// stored whole, or the cache as it was when the fetch failed.
pub open spec fn after_fetch(
    cache: Seq<Option<CachedKeys>>,
    i: int,
    fetched: Option<Seq<Option<Seq<char>>>>,
    now: u64,
) -> Seq<Option<CachedKeys>> {
    match fetched {
        Some(k) => cache.update(i, Some(CachedKeys { fetched_at: now, kids: k })),
        None => cache,
    }
}

/// A whole validation as `resume` and `key_fetch_done` state its steps:
/// step 0 walks the cache `caches[0]` from the first issuer at `times[0]`;
/// each later step follows a fetch request of the step before, for issuer
/// `nexts[k - 1]`, whose outcome (key ids, or `None` for a failure) is
/// `fetched[k]`, with `caches[k]` the cache after it.
pub open spec fn is_validation_run(
    kid: Seq<char>,
    urls: Seq<String>,
    ttl: u64,
    times: Seq<u64>,
    caches: Seq<Seq<Option<CachedKeys>>>,
    fetched: Seq<Option<Seq<Option<Seq<char>>>>>,
    nexts: Seq<int>,
    actions: Seq<ValidationAction>,
) -> bool {
    &&& actions.len() > 0
    &&& times.len() == actions.len() && caches.len() == actions.len()
    &&& fetched.len() == actions.len() && nexts.len() == actions.len()
    &&& action_follows(walk(caches[0], kid, 0, times[0], ttl), actions[0], urls, nexts[0])
    &&& forall|k: int|
        0 < k < actions.len() ==> {
            &&& #[trigger] actions[k - 1] is Fetch
            &&& 0 <= nexts[k - 1] < caches[k - 1].len()
            &&& caches[k] == after_fetch(caches[k - 1], nexts[k - 1], fetched[k], times[k])
            &&& action_follows(
                walk_after_fetch(caches[k], kid, nexts[k - 1], fetched[k], times[k], ttl),
                actions[k],
                urls,
                nexts[k],
            )
        }
}

proof fn lemma_run_keeps_kid_absent(
    kid: Seq<char>,
    urls: Seq<String>,
    ttl: u64,
    times: Seq<u64>,
    caches: Seq<Seq<Option<CachedKeys>>>,
    fetched: Seq<Option<Seq<Option<Seq<char>>>>>,
    nexts: Seq<int>,
    actions: Seq<ValidationAction>,
    k: int,
)
    requires
        is_validation_run(kid, urls, ttl, times, caches, fetched, nexts, actions),
        kid_absent(caches[0], kid),
        forall|j: int| 0 <= j < fetched.len() ==> (#[trigger] fetched[j] matches Some(ks) ==> !has_kid(ks, kid)),
        0 <= k < actions.len(),
    ensures
        kid_absent(caches[k], kid),
        actions[k] is Fetch || (actions[k] matches ValidationAction::Finished(Err(AuthError::InvalidToken(m)))
            && m@ == no_match_message()),
    decreases k,
{
    if k == 0 {
        lemma_absent_kid_first_step(caches[0], kid, 0, times[0], ttl, actions[0], urls, nexts[0]);
    } else {
        lemma_run_keeps_kid_absent(kid, urls, ttl, times, caches, fetched, nexts, actions, k - 1);
        assert(actions[k - 1] is Fetch);
        let f = fetched[k];
        assert(f matches Some(ks) ==> !has_kid(ks, kid));
        lemma_absent_kid_run_step(
            caches[k - 1],
            kid,
            nexts[k - 1],
            f,
            times[k],
            ttl,
            actions[k],
            urls,
            nexts[k],
        );
    }
}

/// A whole validation of a token whose key id no issuer's key set holds,
/// cached or fetched, never verifies the token: every step asks for a
/// fetch or ends with "no matching key", so it ends, if at all, with
/// `InvalidToken("No matching key found in JWKS")` and no claims.
pub proof fn lemma_absent_kid_run(
    kid: Seq<char>,
    urls: Seq<String>,
    ttl: u64,
    times: Seq<u64>,
    caches: Seq<Seq<Option<CachedKeys>>>,
    fetched: Seq<Option<Seq<Option<Seq<char>>>>>,
    nexts: Seq<int>,
    actions: Seq<ValidationAction>,
)
    requires
        is_validation_run(kid, urls, ttl, times, caches, fetched, nexts, actions),
        kid_absent(caches[0], kid),
        forall|j: int| 0 <= j < fetched.len() ==> (#[trigger] fetched[j] matches Some(ks) ==> !has_kid(ks, kid)),
    ensures
        forall|k: int|
            0 <= k < actions.len() ==> #[trigger] actions[k] is Fetch || (actions[k] matches ValidationAction::Finished(
                Err(AuthError::InvalidToken(m)),
            ) && m@ == no_match_message()),
{
    assert forall|k: int| 0 <= k < actions.len() implies #[trigger] actions[k] is Fetch || (
    actions[k] matches ValidationAction::Finished(Err(AuthError::InvalidToken(m))) && m@ == no_match_message()) by {
        lemma_run_keeps_kid_absent(kid, urls, ttl, times, caches, fetched, nexts, actions, k);
    }
}

/// The first step of a validation whose key id no cached set holds ends in
/// a fetch request or in "no matching key".
pub proof fn lemma_absent_kid_first_step(
    cache: Seq<Option<CachedKeys>>,
    kid: Seq<char>,
    from: int,
    now: u64,
    ttl: u64,
    a: ValidationAction,
    urls: Seq<String>,
    next: int,
)
    requires
        kid_absent(cache, kid),
        action_follows(walk(cache, kid, from, now, ttl), a, urls, next),
    ensures
        a is Fetch || (a matches ValidationAction::Finished(Err(AuthError::InvalidToken(m))) && m@
            == no_match_message()),
{
    lemma_absent_kid_never_matches(cache, kid, from, now, ttl);
}

/// After a fetch for issuer `i`, a key id that neither the fetched set nor
/// any cached set holds does not lead to verification either.
pub proof fn lemma_absent_kid_after_fetch(
    cache: Seq<Option<CachedKeys>>,
    kid: Seq<char>,
    i: int,
    fetched: Option<Seq<Option<Seq<char>>>>,
    now: u64,
    ttl: u64,
)
    requires
        0 <= i < cache.len(),
        forall|j: int| 0 <= j < cache.len() && #[trigger] cache[j] is Some ==> !has_kid(cache[j]->0.kids, kid),
        fetched matches Some(k) ==> !has_kid(k, kid),
    ensures
        !(walk_after_fetch(cache, kid, i, fetched, now, ttl) is Use),
{
    lemma_absent_kid_never_matches(cache, kid, i + 1, now, ttl);
}

/// Once the keys of issuer `i` were stored at `t`, no walk at an instant
/// within one time-to-live of `t` asks to fetch issuer `i` again.
pub proof fn lemma_no_refetch_within_ttl(
    cache: Seq<Option<CachedKeys>>,
    kid: Seq<char>,
    i: int,
    from: int,
    kids: Seq<Option<Seq<char>>>,
    t: u64,
    now: u64,
    ttl: u64,
)
    requires
        0 <= i < cache.len(),
        t <= now,
        now - t < ttl,
    ensures
        !(walk(cache.update(i, Some(CachedKeys { fetched_at: t, kids })), kid, from, now, ttl) matches Walk::FetchAt(
            j,
        ) && j == i),
    decreases cache.len() - from,
{
    let c = cache.update(i, Some(CachedKeys { fetched_at: t, kids }));
    if 0 <= from < cache.len() && freshness_of(c[from], now, ttl) == Freshness::Fresh && !has_kid(
        c[from]->0.kids,
        kid,
    ) {
        lemma_no_refetch_within_ttl(cache, kid, i, from + 1, kids, t, now, ttl);
    }
}

/// Validation succeeds only where a walk ended at an issuer whose key set
/// (fresh, just fetched, or stale after a failed refresh) holds the token's
/// key id: neither a fetch request nor "no matching key" carries claims.
pub proof fn lemma_success_needs_matching_key(w: Walk, a: ValidationAction, urls: Seq<String>, next: int)
    requires
        action_follows(w, a, urls, next),
        a matches ValidationAction::Finished(r) && r is Ok,
    ensures
        w matches Walk::Use(i) && i == next,
{
}

/// A failed refresh does not evict: when the stale keys of issuer `i` hold
/// the token's key id, the walk after the failed fetch verifies with them.
pub proof fn lemma_stale_keys_serve(
    cache: Seq<Option<CachedKeys>>,
    kid: Seq<char>,
    i: int,
    now: u64,
    ttl: u64,
)
    requires
        0 <= i < cache.len(),
        cache[i] is Some,
        has_kid(cache[i]->0.kids, kid),
    ensures
        walk_after_fetch(cache, kid, i, None, now, ttl) == Walk::Use(i),
{
}

/// How a walk that ends at an issuer with a matching key shows: validation
/// has finished; the token went to verification under the request that
/// `request_fits` states for that issuer's key set `kids`; a failure is an
/// invalid token, and a success carries the claims of the token's payload,
/// which name exactly the configured audience and issuer, where configured,
/// and the header declared `alg`.
pub open spec fn settled(
    a: ValidationAction,
    p: PendingToken,
    kids: Seq<Option<Seq<char>>>,
    kid: Seq<char>,
    alg: Algorithm,
    cfg: AuthConfig,
) -> bool {
    &&& match a {
        ValidationAction::Finished(r) => match r {
            Ok(c) => {
                &&& payload_claims(token_payload(p.token())) == Some(claims_view(c))
                &&& cfg.audience is Some ==> claims_view(c).aud == opt_string(cfg.audience)
                &&& cfg.issuer is Some ==> claims_view(c).iss == opt_string(cfg.issuer)
                &&& header_alg(p.token()) == Some(alg)
            },
            Err(e) => e is InvalidToken,
        },
        ValidationAction::Fetch { .. } => false,
    }
    &&& p.request() matches Some(q) && request_fits(q, kids, kid, alg, cfg)
}

/// A finished validation fails only with an invalid token.
pub open spec fn fails_as_invalid(a: ValidationAction) -> bool {
    a matches ValidationAction::Finished(Err(e)) ==> e is InvalidToken
}

/// The URLs of `urls` without repeats, each where it first occurs.
pub open spec fn distinct_urls(urls: Seq<Seq<char>>) -> Seq<Seq<char>>
    decreases urls.len(),
{
    if urls.len() == 0 {
        Seq::empty()
    } else {
        let d = distinct_urls(urls.drop_last());
        if d.contains(urls.last()) {
            d
        } else {
            d.push(urls.last())
        }
    }
}

pub open spec fn url_views(urls: Seq<String>) -> Seq<Seq<char>> {
    urls.map_values(|u: String| u@)
}

fn distinct(urls: &Vec<String>) -> (r: Vec<String>)
    ensures
        url_views(r@) == distinct_urls(url_views(urls@)),
{
    let ghost all = url_views(urls@);
    let mut out: Vec<String> = Vec::new();
    let mut k: usize = 0;
    assert(all.take(0) =~= Seq::<Seq<char>>::empty());
    assert(url_views(out@) =~= Seq::<Seq<char>>::empty());
    while k < urls.len()
        invariant
            all == url_views(urls@),
            k <= urls@.len(),
            url_views(out@) == distinct_urls(all.take(k as int)),
        decreases urls@.len() - k,
    {
        let u = urls[k].as_str();
        let mut j: usize = 0;
        let mut seen = false;
        while j < out.len()
            invariant
                j <= out@.len(),
                !seen ==> forall|m: int| 0 <= m < j ==> out@[m]@ != u@,
                seen ==> url_views(out@).contains(u@),
            decreases out@.len() - j,
        {
            if crate::text::same_text(out[j].as_str(), u) {
                seen = true;
                assert(url_views(out@)[j as int] == u@);
            }
            j = j + 1;
        }
        proof {
            assert(all.take(k + 1).drop_last() =~= all.take(k as int));
            assert(all.take(k + 1).last() == u@);
            if !seen {
                assert(!url_views(out@).contains(u@)) by {
                    if url_views(out@).contains(u@) {
                        let m = choose|m: int| 0 <= m < url_views(out@).len() && url_views(out@)[m] == u@;
                        assert(out@[m]@ == u@);
                    }
                }
            }
        }
        if !seen {
            let ghost before = url_views(out@);
            out.push(urls[k].clone());
            proof {
                assert(url_views(out@) =~= before.push(u@));
            }
        }
        k = k + 1;
    }
    proof {
        assert(all.take(urls@.len() as int) =~= all);
    }
    out
}

/// Validates bearer tokens against the key sets of the configured issuers,
/// caching each issuer's keys.
pub struct JwtValidator {
    config: AuthConfig,
    urls: Vec<String>,
    cache: KeySetCache,
}

impl JwtValidator {
    pub closed spec fn spec_config(&self) -> AuthConfig {
        self.config
    }

    /// The cached key sets, by issuer position.
    pub closed spec fn cached(&self) -> Seq<Option<CachedKeys>> {
        self.cache@
    }

    /// The time-to-live of cached keys, in milliseconds.
    pub closed spec fn ttl(&self) -> u64 {
        self.cache.ttl()
    }

    /// The issuer URLs in the order they are tried: the configured ones,
    /// each once.
    pub closed spec fn issuers(&self) -> Seq<String> {
        self.urls@
    }

    pub closed spec fn wf(&self) -> bool {
        &&& self.cache@.len() == self.urls@.len()
        &&& url_views(self.urls@) == distinct_urls(url_views(self.config.jwks_urls@))
        &&& self.cache.ttl() == millis_of(self.config.jwks_cache_seconds)
    }

    /// A validator with an empty cache: one entry per distinct issuer URL.
    pub fn new(config: AuthConfig) -> (r: Self)
        ensures
            r.wf(),
            r.spec_config() == config,
            url_views(r.issuers()) == distinct_urls(url_views(config.jwks_urls@)),
            r.cached().len() == r.issuers().len(),
            forall|i: int| 0 <= i < r.cached().len() ==> r.cached()[i] is None,
            r.ttl() == millis_of(config.jwks_cache_seconds),
    {
        let ttl = to_millis(config.jwks_cache_seconds);
        let urls = distinct(&config.jwks_urls);
        let cache = KeySetCache::new(urls.len(), ttl);
        JwtValidator { config, urls, cache }
    }

    pub fn config(&self) -> (r: &AuthConfig)
        ensures
            *r == self.spec_config(),
    {
        &self.config
    }

    /// Reads the token's header. A header that does not decode, or one
    /// without a key id, fails at once: no issuer is consulted.
    pub fn start(&self, token: &str) -> (r: Result<PendingToken, AuthError>)
        ensures
            token_header(token@) is None ==> (r matches Err(e) && e is InvalidToken),
            header_kid(token@) == Some(None::<Seq<char>>) ==> (r matches Err(
                AuthError::InvalidToken(m),
            ) && m@ == "Missing kid in JWT header"@),
            header_kid(token@) matches Some(Some(kid)) ==> (r matches Ok(p) && p.kid() == kid
                && header_alg(token@) == Some(p.alg()) && p.token() == token@ && p.next() == 0
                && p.request() is None),
    {
        match read_header(token) {
            Err(e) => Err(AuthError::InvalidToken(e.to_string())),
            Ok((None, _)) => Err(AuthError::InvalidToken("Missing kid in JWT header".to_owned())),
            Ok((Some(kid), alg)) => Ok(
                PendingToken { token: token.to_owned(), kid, alg, next: 0, request: None },
            ),
        }
    }

    /// What verification of the token with `keys` is handed: the first key
    /// with the token's key id, the header's algorithm, and the configured
    /// audience and issuer. `None` when no key has that id.
    pub fn verification_request(&self, p: &PendingToken, keys: &SigningKeySet) -> (r: Option<VerificationRequest>)
        ensures
            r is Some <==> has_kid(keys.kids(), p.kid()),
            r matches Some(q) ==> request_fits(request_view(q), keys.kids(), p.kid(), p.alg(), self.spec_config())
                && q.key_index < keys.keys@.len(),
    {
        match keys.find_key(p.kid.as_str()) {
            Some(k) => Some(
                VerificationRequest {
                    key_index: k,
                    alg: p.alg,
                    audience: copy_text(&self.config.audience),
                    issuer: copy_text(&self.config.issuer),
                },
            ),
            None => None,
        }
    }

    /// Verifies the token with issuer `i`'s key set `keys`, which holds its
    /// key id, and records the request it was verified under.
    fn settle(&self, p: &mut PendingToken, i: usize, keys: &SigningKeySet) -> (r: Result<Claims, AuthError>)
        requires
            has_kid(keys.kids(), old(p).kid()),
        ensures
            final(p).token() == old(p).token(),
            final(p).kid() == old(p).kid(),
            final(p).alg() == old(p).alg(),
            final(p).next() == i,
            settled(
                ValidationAction::Finished(r),
                *final(p),
                keys.kids(),
                old(p).kid(),
                old(p).alg(),
                self.spec_config(),
            ),
    {
        let q = match self.verification_request(p, keys) {
            Some(q) => q,
            None => return Err(AuthError::InvalidToken("No matching key found in JWKS".to_owned())),
        };
        p.next = i;
        let r = verify_under(p.token.as_str(), keys, &q);
        p.request = Some(q);
        r
    }

    /// Walks the issuers from `p.next()` on at `now`, as `walk` states:
    /// settles the token with fresh cached keys, asks for a fetch, or fails
    /// with "no matching key". The cache is not changed.
    pub fn resume(&mut self, p: &mut PendingToken, now: u64) -> (a: ValidationAction)
        requires
            old(self).wf(),
        ensures
            final(self).wf(),
            final(self).spec_config() == old(self).spec_config(),
            final(self).issuers() == old(self).issuers(),
            final(self).cached() == old(self).cached(),
            final(p).kid() == old(p).kid(),
            final(p).token() == old(p).token(),
            final(p).alg() == old(p).alg(),
            action_follows(
                walk(old(self).cached(), old(p).kid(), old(p).next(), now, old(self).ttl()),
                a,
                old(self).issuers(),
                final(p).next(),
            ),
            walk(old(self).cached(), old(p).kid(), old(p).next(), now, old(self).ttl()) matches Walk::Use(i)
                ==> settled(
                a,
                *final(p),
                old(self).cached()[i]->0.kids,
                old(p).kid(),
                old(p).alg(),
                old(self).spec_config(),
            ),
            fails_as_invalid(a),
    {
        let n = self.urls.len();
        let mut i = p.next;
        while i < n
            invariant
                self.wf(),
                n == self.urls@.len(),
                old(p).next <= i,
                walk(self.cached(), p.kid(), old(p).next(), now, self.ttl()) == walk(
                    self.cached(),
                    p.kid(),
                    i as int,
                    now,
                    self.ttl(),
                ),
                *self == *old(self),
                p.kid() == old(p).kid(),
                p.token() == old(p).token(),
                p.alg() == old(p).alg(),
            decreases n - i,
        {
            match self.cache.lookup(i, now) {
                Freshness::Fresh => {
                    let ks = self.cache.keys(i).unwrap();
                    if ks.find_key(p.kid.as_str()).is_some() {
                        let r = self.settle(p, i, ks);
                        return ValidationAction::Finished(r);
                    }
                },
                _ => {
                    p.next = i;
                    return ValidationAction::Fetch { issuer: i, url: self.urls[i].clone() };
                },
            }
            i = i + 1;
        }
        p.next = i;
        ValidationAction::Finished(
            Err(AuthError::InvalidToken("No matching key found in JWKS".to_owned())),
        )
    }

    /// Takes the outcome of the fetch for issuer `p.next()` at `now`. A new
    /// key set replaces the issuer's entry whole; a failed fetch leaves the
    /// cache as it was, so stale keys keep serving. Then goes on as
    /// `walk_after_fetch` states.
    pub fn key_fetch_done(
        &mut self,
        p: &mut PendingToken,
        outcome: Result<SigningKeySet, AuthError>,
        now: u64,
    ) -> (a: ValidationAction)
        requires
            old(self).wf(),
        ensures
            final(self).wf(),
            final(self).spec_config() == old(self).spec_config(),
            final(self).issuers() == old(self).issuers(),
            final(p).kid() == old(p).kid(),
            final(p).token() == old(p).token(),
            final(p).alg() == old(p).alg(),
            fails_as_invalid(a),
            old(p).next() >= old(self).cached().len() ==> final(self).cached() == old(self).cached()
                && action_follows(Walk::NoMatch, a, old(self).issuers(), final(p).next()),
            old(p).next() < old(self).cached().len() ==> {
                let fetched = match outcome {
                    Ok(ks) => Some(ks.kids()),
                    Err(_) => None,
                };
                let c = match outcome {
                    Ok(ks) => old(self).cached().update(
                        old(p).next(),
                        Some(CachedKeys { fetched_at: now, kids: ks.kids() }),
                    ),
                    Err(_) => old(self).cached(),
                };
                let w = walk_after_fetch(c, old(p).kid(), old(p).next(), fetched, now, old(self).ttl());
                &&& final(self).cached() == c
                &&& action_follows(w, a, old(self).issuers(), final(p).next())
                &&& w matches Walk::Use(j) ==> settled(
                    a,
                    *final(p),
                    c[j]->0.kids,
                    old(p).kid(),
                    old(p).alg(),
                    old(self).spec_config(),
                )
            },
    {
        let i = p.next;
        if i >= self.cache.issuers() {
            return self.resume(p, now);
        }
        match outcome {
            Ok(ks) => {
                if ks.find_key(p.kid.as_str()).is_some() {
                    let r = self.settle(p, i, &ks);
                    self.cache.store(i, ks, now);
                    return ValidationAction::Finished(r);
                }
                self.cache.store(i, ks, now);
            },
            Err(_) => {
                let used = match self.cache.keys(i) {
                    Some(stale) => if stale.find_key(p.kid.as_str()).is_some() {
                        Some(self.settle(p, i, stale))
                    } else {
                        None
                    },
                    None => None,
                };
                if let Some(r) = used {
                    return ValidationAction::Finished(r);
                }
            },
        }
        p.next = i + 1;
        self.resume(p, now)
    }
}

} // verus!
