//! API version detection from the request path and headers.

use crate::text::{
    contains, ends_with, has_infix, has_suffix, opt_text, same_text, split, split_seq,
    starts_with,
};
use vstd::prelude::*;

verus! {

/// The version served when a request names none.
pub const API_VERSION_CURRENT: &'static str = "v1";

/// API versions.
#[derive(Debug, Clone, Copy, PartialEq, Eq, Structural)]
pub enum ApiVersion {
    V1,
}

/// Why a version text was refused.
#[derive(Debug, Clone)]
pub enum VersionError {
    Unsupported(String),
    InvalidFormat(String),
}

impl VersionError {
    /// The error's text, as it is shown to a client.
    pub fn message(&self) -> (r: String)
        ensures
            self matches VersionError::Unsupported(v) ==> r@ == "Unsupported API version: "@ + v@,
            self matches VersionError::InvalidFormat(v) ==> r@ == "Invalid version format: "@ + v@,
    {
        match self {
            VersionError::Unsupported(v) => {
                let mut m = String::from_str("Unsupported API version: ");
                m.append(v.as_str());
                m
            },
            VersionError::InvalidFormat(v) => {
                let mut m = String::from_str("Invalid version format: ");
                m.append(v.as_str());
                m
            },
        }
    }
}

/// The version that a version text names: "v1" or "1".
pub open spec fn version_named(s: Seq<char>) -> Option<ApiVersion> {
    if s == "v1"@ || s == "1"@ {
        Some(ApiVersion::V1)
    } else {
        None
    }
}

/// The version segment of a path of the form `<any>/api/v<rest>/...`: the
/// third piece between slashes, when the second is "api" and the third
/// starts with 'v'.
pub open spec fn path_version(path: Seq<char>) -> Option<Seq<char>> {
    let parts = split_seq(path, '/');
    if parts.len() >= 3 && parts[1] == "api"@ && parts[2].len() > 0 && parts[2][0] == 'v' {
        Some(parts[2])
    } else {
        None
    }
}

/// The version in an Accept value such as `application/vnd.estuary.v1+json`:
/// when the value holds `application/vnd.estuary.`, the third piece between
/// dots, which must end in `+json`, without that ending.
pub open spec fn accept_version(accept: Seq<char>) -> Option<Seq<char>> {
    let parts = split_seq(accept, '.');
    if has_infix(accept, "application/vnd.estuary."@) && parts.len() >= 3 && has_suffix(
        parts[2],
        "+json"@,
    ) {
        Some(parts[2].take(parts[2].len() - 5))
    } else {
        None
    }
}

/// The version a request asks for: the path first, then the Accept header,
/// then the X-API-Version header, each only where it names a supported
/// version; otherwise the default.
pub open spec fn detected_version(
    path: Seq<char>,
    accept: Option<Seq<char>>,
    api_version: Option<Seq<char>>,
) -> ApiVersion {
    if path_version(path) is Some && version_named(path_version(path)->0) is Some {
        version_named(path_version(path)->0)->0
    } else if accept is Some && accept_version(accept->0) is Some && version_named(
        accept_version(accept->0)->0,
    ) is Some {
        version_named(accept_version(accept->0)->0)->0
    } else if api_version is Some && version_named(api_version->0) is Some {
        version_named(api_version->0)->0
    } else {
        ApiVersion::V1
    }
}

impl Default for ApiVersion {
    fn default() -> (r: Self)
        ensures
            r == ApiVersion::V1,
    {
        ApiVersion::V1
    }
}

impl ApiVersion {
    /// Whether this version is deprecated; no version is at present.
    pub fn is_deprecated(&self) -> (r: bool)
        ensures
            !r,
    {
        false
    }

    /// The version's name.
    pub fn as_str(&self) -> (r: &'static str)
        ensures
            r@ == "v1"@,
    {
        match self {
            ApiVersion::V1 => "v1",
        }
    }

    /// The version that `s` names, or `Unsupported(s)`.
    pub fn parse(s: &str) -> (r: Result<ApiVersion, VersionError>)
        ensures
            version_named(s@) matches Some(v) ==> (r matches Ok(w) && w == v),
            version_named(s@) is None ==> (r matches Err(VersionError::Unsupported(m)) && m@ == s@),
    {
        if same_text(s, "v1") || same_text(s, "1") {
            Ok(ApiVersion::V1)
        } else {
            Err(VersionError::Unsupported(s.to_owned()))
        }
    }
}

impl std::str::FromStr for ApiVersion {
    type Err = VersionError;

    fn from_str(s: &str) -> (r: Result<ApiVersion, VersionError>)
        ensures
            version_named(s@) matches Some(v) ==> (r matches Ok(w) && w == v),
            version_named(s@) is None ==> (r matches Err(VersionError::Unsupported(m)) && m@ == s@),
    {
        ApiVersion::parse(s)
    }
}

/// The version segment of `path`, as `path_version` states it.
pub fn extract_version_from_path(path: &str) -> (r: Option<String>)
    ensures
        r matches Some(v) ==> path_version(path@) == Some(v@),
        r is None ==> path_version(path@) is None,
{
    let parts = split(path, '/');
    proof {
        assert(parts@.map_values(|p: String| p@).len() == parts@.len());
    }
    if parts.len() >= 3 {
        proof {
            assert(parts@.map_values(|p: String| p@)[1] == parts@[1]@);
            assert(parts@.map_values(|p: String| p@)[2] == parts@[2]@);
        }
        if same_text(parts[1].as_str(), "api") && starts_with(parts[2].as_str(), "v") {
            proof {
                reveal_strlit("v");
                assert(parts@[2]@.subrange(0, 1) =~= "v"@);
                assert(parts@[2]@[0] == "v"@[0]);
            }
            return Some(parts[2].clone());
        }
        proof {
            reveal_strlit("v");
            if parts@[2]@.len() > 0 && parts@[2]@[0] == 'v' {
                assert(parts@[2]@.subrange(0, 1) =~= "v"@);
            }
        }
    }
    None
}

/// The version in an Accept value, as `accept_version` states it.
pub fn extract_version_from_accept(accept: &str) -> (r: Option<String>)
    ensures
        r matches Some(v) ==> accept_version(accept@) == Some(v@),
        r is None ==> accept_version(accept@) is None,
{
    if !contains(accept, "application/vnd.estuary.") {
        return None;
    }
    let parts = split(accept, '.');
    proof {
        assert(parts@.map_values(|p: String| p@).len() == parts@.len());
    }
    if parts.len() >= 3 {
        proof {
            assert(parts@.map_values(|p: String| p@)[2] == parts@[2]@);
        }
        let part = parts[2].as_str();
        if ends_with(part, "+json") {
            proof {
                reveal_strlit("+json");
            }
            let n = part.unicode_len();
            return Some(part.substring_char(0, n - 5).to_owned());
        }
    }
    None
}

/// The version a request asks for, as `detected_version` states it. `accept`
/// and `api_version` are the values of those headers, where present.
pub fn extract_version(path: &str, accept: Option<&str>, api_version: Option<&str>) -> (r: ApiVersion)
    ensures
        r == detected_version(path@, opt_text(accept), opt_text(api_version)),
{
    if let Some(v) = extract_version_from_path(path) {
        if let Ok(found) = ApiVersion::parse(v.as_str()) {
            return found;
        }
    }
    if let Some(a) = accept {
        if let Some(v) = extract_version_from_accept(a) {
            if let Ok(found) = ApiVersion::parse(v.as_str()) {
                return found;
            }
        }
    }
    if let Some(h) = api_version {
        if let Ok(found) = ApiVersion::parse(h) {
            return found;
        }
    }
    ApiVersion::default()
}

/// The version a request was served under, as later stages see it.
#[derive(Debug, Clone, Copy)]
pub struct VersionContext {
    pub version: ApiVersion,
}

} // verus!
