//! Security headers placed on every response.

use vstd::prelude::*;

verus! {

/// The policy served in strict mode when none is configured.
pub const STRICT_CSP: &'static str = "default-src 'self'; script-src 'self'; style-src 'self'; img-src 'self' data: https:; font-src 'self'; connect-src 'self'; frame-ancestors 'none'; base-uri 'self'; form-action 'self'";

/// The policy served outside strict mode when none is configured.
pub const PERMISSIVE_CSP: &'static str = "default-src 'self'; script-src 'self' 'unsafe-inline' 'unsafe-eval'; style-src 'self' 'unsafe-inline'; img-src * data:; font-src *; connect-src *";

/// The Strict-Transport-Security value sent in strict mode.
pub const HSTS: &'static str = "max-age=31536000; includeSubDomains; preload";

/// Security header settings.
#[derive(Clone, Debug)]
pub struct SecurityConfig {
    /// Strict mode adds HSTS and defaults to the strict policy.
    pub strict_mode: bool,
    /// The Content-Security-Policy value.
    pub csp: String,
}

impl Default for SecurityConfig {
    fn default() -> (r: Self)
        ensures
            !r.strict_mode,
            r.csp@ == crate::config::DEFAULT_CSP@,
    {
        SecurityConfig { strict_mode: false, csp: crate::config::DEFAULT_CSP.to_owned() }
    }
}

impl SecurityConfig {
    /// Settings from the mode and an optional configured policy; without one,
    /// the strict or permissive policy by mode.
    pub fn for_mode(strict_mode: bool, csp: Option<String>) -> (r: Self)
        ensures
            r.strict_mode == strict_mode,
            csp matches Some(c) ==> r.csp == c,
            csp is None ==> r.csp@ == (if strict_mode { STRICT_CSP@ } else { PERMISSIVE_CSP@ }),
    {
        let csp = match csp {
            Some(c) => c,
            None => if strict_mode {
                STRICT_CSP.to_owned()
            } else {
                PERMISSIVE_CSP.to_owned()
            },
        };
        SecurityConfig { strict_mode, csp }
    }
}

impl From<&crate::config::SecurityConfig> for SecurityConfig {
    fn from(c: &crate::config::SecurityConfig) -> (r: SecurityConfig) {
        SecurityConfig { strict_mode: c.strict_mode, csp: c.csp.clone() }
    }
}

impl vstd::std_specs::convert::FromSpecImpl<&crate::config::SecurityConfig> for SecurityConfig {
    open spec fn obeys_from_spec() -> bool {
        true
    }

    open spec fn from_spec(c: &crate::config::SecurityConfig) -> SecurityConfig {
        SecurityConfig { strict_mode: c.strict_mode, csp: c.csp }
    }
}

/// The headers a response carries under `c`, in order.
pub open spec fn security_header_list(c: SecurityConfig) -> Seq<(Seq<char>, Seq<char>)> {
    let base = seq![
        ("X-Content-Type-Options"@, "nosniff"@),
        ("X-Frame-Options"@, "DENY"@),
        ("X-XSS-Protection"@, "1; mode=block"@),
        ("Referrer-Policy"@, "strict-origin-when-cross-origin"@),
        ("Permissions-Policy"@, "geolocation=(), microphone=(), camera=()"@),
        ("Content-Security-Policy"@, c.csp@),
    ];
    if c.strict_mode {
        base.push(("Strict-Transport-Security"@, HSTS@))
    } else {
        base
    }
}

pub open spec fn pair_view(p: (String, String)) -> (Seq<char>, Seq<char>) {
    (p.0@, p.1@)
}

fn header(name: &str, value: &str) -> (r: (String, String))
    ensures
        pair_view(r) == (name@, value@),
{
    (name.to_owned(), value.to_owned())
}

/// The security headers for a response, as `security_header_list` states.
pub fn security_headers(c: &SecurityConfig) -> (r: Vec<(String, String)>)
    ensures
        r@.map_values(|p: (String, String)| pair_view(p)) == security_header_list(*c),
{
    let mut v: Vec<(String, String)> = Vec::new();
    v.push(header("X-Content-Type-Options", "nosniff"));
    v.push(header("X-Frame-Options", "DENY"));
    v.push(header("X-XSS-Protection", "1; mode=block"));
    v.push(header("Referrer-Policy", "strict-origin-when-cross-origin"));
    v.push(header("Permissions-Policy", "geolocation=(), microphone=(), camera=()"));
    v.push(header("Content-Security-Policy", c.csp.as_str()));
    if c.strict_mode {
        v.push(header("Strict-Transport-Security", HSTS));
    }
    proof {
        assert(v@.map_values(|p: (String, String)| pair_view(p)) =~= security_header_list(*c));
    }
    v
}

} // verus!
