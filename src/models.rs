//! Request bodies of the item endpoints, list paging and health reports,
//! with the clean-up and checks applied to them.

use crate::error::AppError;
use crate::text::{trim, trim_seq};
use vstd::prelude::*;

verus! {

/// Requested body of a new item.
#[derive(Clone, Debug)]
pub struct CreateItemRequest {
    /// 1 to 255 characters.
    pub name: String,
    /// At most 1000 characters.
    pub description: Option<String>,
}

/// Requested changes to an item.
#[derive(Clone, Debug)]
pub struct UpdateItemRequest {
    /// 1 to 255 characters, where given.
    pub name: Option<String>,
    /// At most 1000 characters, where given.
    pub description: Option<String>,
}

/// An optional text after clean-up: trimmed, and gone when nothing is left.
pub open spec fn cleaned(o: Option<Seq<char>>) -> Option<Seq<char>> {
    match o {
        Some(s) => if trim_seq(s).len() == 0 {
            None
        } else {
            Some(trim_seq(s))
        },
        None => None,
    }
}

pub open spec fn opt_view(o: Option<String>) -> Option<Seq<char>> {
    match o {
        Some(s) => Some(s@),
        None => None,
    }
}

/// `s` without leading and trailing white space.
pub fn sanitize_string(s: String) -> (r: String)
    ensures
        r@ == trim_seq(s@),
{
    trim(s.as_str()).to_owned()
}

/// A trimmed text, or `None` when it is absent or only white space.
pub fn sanitize_optional_string(s: Option<String>) -> (r: Option<String>)
    ensures
        opt_view(r) == cleaned(opt_view(s)),
{
    match s {
        Some(s) => {
            let t = trim(s.as_str());
            if t.unicode_len() == 0 {
                None
            } else {
                Some(t.to_owned())
            }
        },
        None => None,
    }
}

/// Lengths a name and a description may have, in characters.
pub open spec fn name_ok(n: Seq<char>) -> bool {
    1 <= n.len() <= 255
}

pub open spec fn description_ok(d: Option<Seq<char>>) -> bool {
    d matches Some(t) ==> t.len() <= 1000
}

fn check_lengths(name: Option<&String>, description: &Option<String>) -> (r: Result<(), AppError>)
    ensures
        r is Ok <==> (name matches Some(n) ==> name_ok(n@)) && description_ok(opt_view(*description)),
        r matches Err(e) ==> e is ValidationError,
{
    if let Some(n) = name {
        let len = n.as_str().unicode_len();
        if len < 1 || len > 255 {
            return Err(AppError::ValidationError("name: Name must be between 1 and 255 characters".to_owned()));
        }
    }
    if let Some(d) = description {
        if d.as_str().unicode_len() > 1000 {
            return Err(AppError::ValidationError("description: Description must not exceed 1000 characters".to_owned()));
        }
    }
    Ok(())
}

impl CreateItemRequest {
    /// Trims the name, and the description, which goes when it is blank.
    pub fn sanitize(self) -> (r: Self)
        ensures
            r.name@ == trim_seq(self.name@),
            opt_view(r.description) == cleaned(opt_view(self.description)),
    {
        CreateItemRequest {
            name: sanitize_string(self.name),
            description: sanitize_optional_string(self.description),
        }
    }

    /// Checks the lengths: a name of 1 to 255 characters, a description of
    /// at most 1000. A failure is a validation error naming the field.
    pub fn check(&self) -> (r: Result<(), AppError>)
        ensures
            r is Ok <==> name_ok(self.name@) && description_ok(opt_view(self.description)),
            r matches Err(e) ==> e is ValidationError,
    {
        check_lengths(Some(&self.name), &self.description)
    }
}

impl UpdateItemRequest {
    /// Trims the name, and the description, which goes when it is blank.
    pub fn sanitize(self) -> (r: Self)
        ensures
            opt_view(r.name) == match opt_view(self.name) {
                Some(n) => Some(trim_seq(n)),
                None => None,
            },
            opt_view(r.description) == cleaned(opt_view(self.description)),
    {
        let name = match self.name {
            Some(n) => Some(sanitize_string(n)),
            None => None,
        };
        UpdateItemRequest { name, description: sanitize_optional_string(self.description) }
    }

    /// Checks the lengths of the fields that are given.
    pub fn check(&self) -> (r: Result<(), AppError>)
        ensures
            r is Ok <==> (self.name matches Some(n) ==> name_ok(n@)) && description_ok(
                opt_view(self.description),
            ),
            r matches Err(e) ==> e is ValidationError,
    {
        check_lengths(self.name.as_ref(), &self.description)
    }
}

/// Paging of a list request.
#[derive(Clone, Copy, Debug)]
pub struct ListQuery {
    /// 1 to 100 items.
    pub limit: usize,
    pub offset: usize,
}

/// The page size when a request names none.
pub fn default_limit() -> (r: usize)
    ensures
        r == 20,
{
    20
}

impl ListQuery {
    /// A page of `limit` items (20 when not given) from `offset` (0 when not given).
    pub fn new(limit: Option<usize>, offset: Option<usize>) -> (r: Self)
        ensures
            r.limit == (match limit {
                Some(l) => l,
                None => 20,
            }),
            r.offset == (match offset {
                Some(o) => o,
                None => 0,
            }),
    {
        ListQuery {
            limit: match limit {
                Some(l) => l,
                None => default_limit(),
            },
            offset: match offset {
                Some(o) => o,
                None => 0,
            },
        }
    }

    /// A limit outside 1 to 100 is a bad request.
    pub fn check(&self) -> (r: Result<(), AppError>)
        ensures
            r is Ok <==> 1 <= self.limit <= 100,
            r matches Err(e) ==> e is BadRequest,
    {
        if self.limit < 1 || self.limit > 100 {
            Err(AppError::BadRequest("limit: must be between 1 and 100".to_owned()))
        } else {
            Ok(())
        }
    }
}

/// Overall health of the service.
#[derive(Debug, Clone, Copy, PartialEq, Eq, Structural)]
pub enum HealthStatus {
    Healthy,
    Degraded,
    Unhealthy,
}

impl HealthStatus {
    /// The status as a report shows it.
    pub fn as_str(&self) -> (r: &'static str)
        ensures
            *self == HealthStatus::Healthy ==> r@ == "healthy"@,
            *self == HealthStatus::Degraded ==> r@ == "degraded"@,
            *self == HealthStatus::Unhealthy ==> r@ == "unhealthy"@,
    {
        match self {
            HealthStatus::Healthy => "healthy",
            HealthStatus::Degraded => "degraded",
            HealthStatus::Unhealthy => "unhealthy",
        }
    }
}

/// How the database answered a health probe.
#[derive(Debug, Clone, Copy)]
pub struct DatabaseHealth {
    pub connected: bool,
    pub response_time_ms: Option<u64>,
}

impl DatabaseHealth {
    /// The service is healthy when its database answers, unhealthy otherwise.
    pub fn status(&self) -> (r: HealthStatus)
        ensures
            r == (if self.connected { HealthStatus::Healthy } else { HealthStatus::Unhealthy }),
    {
        if self.connected {
            HealthStatus::Healthy
        } else {
            HealthStatus::Unhealthy
        }
    }
}

} // verus!
