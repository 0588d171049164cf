//! Error taxonomy and the status, code and message each error is answered with.

use crate::text::{
    ends_with, find_char, first_index, lemma_first_index_bounds, split, split_seq, trim, trim_seq,
};
use vstd::prelude::*;

verus! {

/// Machine-readable error codes.
#[derive(Debug, Clone, Copy, PartialEq, Eq, Structural)]
pub enum ErrorCode {
    BadRequest,
    ValidationError,
    NotFound,
    Unauthorized,
    Forbidden,
    RateLimitExceeded,
    InternalServerError,
    DatabaseError,
    LockError,
    ServiceUnavailable,
}

pub open spec fn code_name(c: ErrorCode) -> Seq<char> {
    match c {
        ErrorCode::BadRequest => "BAD_REQUEST"@,
        ErrorCode::ValidationError => "VALIDATION_ERROR"@,
        ErrorCode::NotFound => "NOT_FOUND"@,
        ErrorCode::Unauthorized => "UNAUTHORIZED"@,
        ErrorCode::Forbidden => "FORBIDDEN"@,
        ErrorCode::RateLimitExceeded => "RATE_LIMIT_EXCEEDED"@,
        ErrorCode::InternalServerError => "INTERNAL_SERVER_ERROR"@,
        ErrorCode::DatabaseError => "DATABASE_ERROR"@,
        ErrorCode::LockError => "LOCK_ERROR"@,
        ErrorCode::ServiceUnavailable => "SERVICE_UNAVAILABLE"@,
    }
}

impl ErrorCode {
    /// The code as it appears in a response body.
    pub fn as_str(&self) -> (r: &'static str)
        ensures
            r@ == code_name(*self),
    {
        match self {
            ErrorCode::BadRequest => "BAD_REQUEST",
            ErrorCode::ValidationError => "VALIDATION_ERROR",
            ErrorCode::NotFound => "NOT_FOUND",
            ErrorCode::Unauthorized => "UNAUTHORIZED",
            ErrorCode::Forbidden => "FORBIDDEN",
            ErrorCode::RateLimitExceeded => "RATE_LIMIT_EXCEEDED",
            ErrorCode::InternalServerError => "INTERNAL_SERVER_ERROR",
            ErrorCode::DatabaseError => "DATABASE_ERROR",
            ErrorCode::LockError => "LOCK_ERROR",
            ErrorCode::ServiceUnavailable => "SERVICE_UNAVAILABLE",
        }
    }
}

/// One field-specific validation failure.
#[derive(Debug, Clone)]
pub struct ValidationError {
    pub field: String,
    pub message: String,
    pub code: Option<String>,
}

/// Details attached to an error answer.
#[derive(Debug, Clone)]
pub struct ErrorDetails {
    pub validation_errors: Option<Vec<ValidationError>>,
    pub context: Option<String>,
}

/// Storage failures.
#[derive(Debug, Clone)]
pub enum DatabaseError {
    NotFound,
    ConnectionError(String),
    QueryError(String),
    SerializationError(String),
    LockError,
}

fn prefixed(prefix: &str, m: &String) -> (r: String)
    ensures
        r@ == prefix@ + m@,
{
    let mut s = prefix.to_owned();
    s.append(m.as_str());
    s
}

/// The text of a storage failure.
pub open spec fn database_error_text(e: DatabaseError) -> Seq<char> {
    match e {
        DatabaseError::NotFound => "Item not found"@,
        DatabaseError::ConnectionError(m) => "Database connection error: "@ + m@,
        DatabaseError::QueryError(m) => "Database query error: "@ + m@,
        DatabaseError::SerializationError(m) => "Serialization error: "@ + m@,
        DatabaseError::LockError => "Lock error"@,
    }
}

impl DatabaseError {
    /// The error's text.
    pub fn message(&self) -> (r: String)
        ensures
            r@ == database_error_text(*self),
    {
        match self {
            DatabaseError::NotFound => "Item not found".to_owned(),
            DatabaseError::ConnectionError(m) => prefixed("Database connection error: ", m),
            DatabaseError::QueryError(m) => prefixed("Database query error: ", m),
            DatabaseError::SerializationError(m) => prefixed("Serialization error: ", m),
            DatabaseError::LockError => "Lock error".to_owned(),
        }
    }
}

/// Errors of the request handlers.
#[derive(Debug, Clone)]
pub enum AppError {
    NotFound(String),
    InternalServerError(String),
    BadRequest(String),
    ValidationError(String),
    LockError,
    DatabaseError(DatabaseError),
}

impl AppError {
    /// The error's text.
    pub fn message(&self) -> (r: String)
        ensures
            self matches AppError::NotFound(m) ==> r@ == "Not found: "@ + m@,
            self matches AppError::InternalServerError(m) ==> r@ == "Internal server error: "@ + m@,
            self matches AppError::BadRequest(m) ==> r@ == "Bad request: "@ + m@,
            self matches AppError::ValidationError(m) ==> r@ == "Validation error: "@ + m@,
            self is LockError ==> r@ == "Failed to acquire lock"@,
            self matches AppError::DatabaseError(e) ==> r@ == "Database error: "@ + database_error_text(*e),
    {
        match self {
            AppError::NotFound(m) => prefixed("Not found: ", m),
            AppError::InternalServerError(m) => prefixed("Internal server error: ", m),
            AppError::BadRequest(m) => prefixed("Bad request: ", m),
            AppError::ValidationError(m) => prefixed("Validation error: ", m),
            AppError::LockError => "Failed to acquire lock".to_owned(),
            AppError::DatabaseError(e) => {
                let inner = e.message();
                prefixed("Database error: ", &inner)
            },
        }
    }
}

impl From<DatabaseError> for AppError {
    fn from(e: DatabaseError) -> (r: AppError)
        ensures
            r == AppError::DatabaseError(e),
    {
        AppError::DatabaseError(e)
    }
}

impl vstd::std_specs::convert::FromSpecImpl<DatabaseError> for AppError {
    open spec fn obeys_from_spec() -> bool {
        true
    }

    open spec fn from_spec(e: DatabaseError) -> AppError {
        AppError::DatabaseError(e)
    }
}

/// The answer to an error: HTTP status, code, message and details.
#[derive(Debug, Clone)]
pub struct ErrorReply {
    pub status: u16,
    pub code: ErrorCode,
    pub message: String,
    pub details: Option<ErrorDetails>,
}

/// The HTTP status an error is answered with.
pub open spec fn app_error_status(e: AppError) -> u16 {
    match e {
        AppError::NotFound(_) => 404,
        AppError::InternalServerError(_) => 500,
        AppError::BadRequest(_) => 400,
        AppError::ValidationError(_) => 422,
        AppError::LockError => 500,
        AppError::DatabaseError(d) => match d {
            DatabaseError::NotFound => 404,
            DatabaseError::ConnectionError(_) => 503,
            DatabaseError::QueryError(_) => 500,
            DatabaseError::SerializationError(_) => 500,
            DatabaseError::LockError => 500,
        },
    }
}

/// The code an error is answered with.
pub open spec fn app_error_code(e: AppError) -> ErrorCode {
    match e {
        AppError::NotFound(_) => ErrorCode::NotFound,
        AppError::InternalServerError(_) => ErrorCode::InternalServerError,
        AppError::BadRequest(_) => ErrorCode::BadRequest,
        AppError::ValidationError(_) => ErrorCode::ValidationError,
        AppError::LockError => ErrorCode::LockError,
        AppError::DatabaseError(d) => match d {
            DatabaseError::NotFound => ErrorCode::NotFound,
            DatabaseError::ConnectionError(_) => ErrorCode::ServiceUnavailable,
            DatabaseError::QueryError(_) => ErrorCode::DatabaseError,
            DatabaseError::SerializationError(_) => ErrorCode::InternalServerError,
            DatabaseError::LockError => ErrorCode::LockError,
        },
    }
}

fn text(s: &str) -> (r: String)
    ensures
        r@ == s@,
{
    s.to_owned()
}

fn context(msg: String) -> (r: Option<ErrorDetails>)
    ensures
        r matches Some(d) && d.validation_errors is None && d.context == Some(msg),
{
    Some(ErrorDetails { validation_errors: None, context: Some(msg) })
}

impl AppError {
    /// The answer to this error. A validation error carries its text as
    /// context, and the field errors that `parse_validation_errors` reads from it.
    pub fn to_reply(self) -> (r: ErrorReply)
        ensures
            r.status == app_error_status(self),
            r.code == app_error_code(self),
            self matches AppError::NotFound(m) ==> r.message == m && r.details is None,
            self matches AppError::BadRequest(m) ==> r.message == m && r.details is None,
            self matches AppError::InternalServerError(m) ==> r.message == m && r.details is None,
            self matches AppError::ValidationError(m) ==> r.message@ == "Validation failed"@ && (
            r.details matches Some(d) && d.context == Some(m)),
            self is LockError ==> r.message@ == "Failed to acquire lock"@ && r.details is None,
    {
        match self {
            AppError::NotFound(m) => ErrorReply { status: 404, code: ErrorCode::NotFound, message: m, details: None },
            AppError::InternalServerError(m) => ErrorReply {
                status: 500,
                code: ErrorCode::InternalServerError,
                message: m,
                details: None,
            },
            AppError::BadRequest(m) => ErrorReply { status: 400, code: ErrorCode::BadRequest, message: m, details: None },
            AppError::ValidationError(m) => {
                let fields = parse_validation_errors(m.as_str());
                ErrorReply {
                    status: 422,
                    code: ErrorCode::ValidationError,
                    message: text("Validation failed"),
                    details: Some(ErrorDetails { validation_errors: fields, context: Some(m) }),
                }
            },
            AppError::LockError => ErrorReply {
                status: 500,
                code: ErrorCode::LockError,
                message: text("Failed to acquire lock"),
                details: None,
            },
            AppError::DatabaseError(d) => match d {
                DatabaseError::NotFound => ErrorReply {
                    status: 404,
                    code: ErrorCode::NotFound,
                    message: text("Resource not found"),
                    details: None,
                },
                DatabaseError::ConnectionError(m) => ErrorReply {
                    status: 503,
                    code: ErrorCode::ServiceUnavailable,
                    message: text("Database connection error"),
                    details: context(m),
                },
                DatabaseError::QueryError(m) => ErrorReply {
                    status: 500,
                    code: ErrorCode::DatabaseError,
                    message: text("Database query error"),
                    details: context(m),
                },
                DatabaseError::SerializationError(m) => ErrorReply {
                    status: 500,
                    code: ErrorCode::InternalServerError,
                    message: text("Data serialization error"),
                    details: context(m),
                },
                DatabaseError::LockError => ErrorReply {
                    status: 500,
                    code: ErrorCode::LockError,
                    message: text("Failed to acquire database lock"),
                    details: None,
                },
            },
        }
    }
}

/// `s` without one trailing carriage return.
pub open spec fn strip_cr(s: Seq<char>) -> Seq<char> {
    if s.len() > 0 && s.last() == '\r' {
        s.drop_last()
    } else {
        s
    }
}

/// The lines of `s`, as `str::lines` yields them: the pieces between line
/// feeds, a carriage return before a line feed dropped, and no empty last
/// line after a final line feed.
pub open spec fn lines_seq(s: Seq<char>) -> Seq<Seq<char>> {
    let parts = split_seq(s, '\n');
    let n = if parts.last().len() == 0 {
        parts.len() - 1
    } else {
        parts.len() as int
    };
    Seq::new(n as nat, |k: int| if k < parts.len() - 1 { strip_cr(parts[k]) } else { parts[k] })
}

/// The (field, message) pairs read from `lines`: each line that holds a
/// colon gives the trimmed text before its first colon and the trimmed
/// text after it; other lines give nothing.
pub open spec fn field_errors(lines: Seq<Seq<char>>) -> Seq<(Seq<char>, Seq<char>)>
    decreases lines.len(),
{
    if lines.len() == 0 {
        Seq::empty()
    } else {
        let prev = field_errors(lines.drop_last());
        let l = lines.last();
        match first_index(l, ':') {
            Some(i) => prev.push((trim_seq(l.take(i)), trim_seq(l.skip(i + 1)))),
            None => prev,
        }
    }
}

pub open spec fn error_pair(e: ValidationError) -> (Seq<char>, Seq<char>) {
    (e.field@, e.message@)
}

/// Reads field errors from a text of lines `field: message`. `None` when no
/// line holds a colon.
pub fn parse_validation_errors(error_str: &str) -> (r: Option<Vec<ValidationError>>)
    ensures
        field_errors(lines_seq(error_str@)).len() == 0 ==> r is None,
        field_errors(lines_seq(error_str@)).len() > 0 ==> (r matches Some(v) && v@.map_values(
            |e: ValidationError| error_pair(e),
        ) == field_errors(lines_seq(error_str@))),
        r matches Some(v) ==> forall|i: int| 0 <= i < v@.len() ==> v@[i].code is None,
{
    let parts = split(error_str, '\n');
    let ghost pv = parts@.map_values(|p: String| p@);
    let ghost lines = lines_seq(error_str@);
    let last_empty = parts[parts.len() - 1].as_str().unicode_len() == 0;
    let n = if last_empty {
        parts.len() - 1
    } else {
        parts.len()
    };
    assert(n == lines.len());
    let mut out: Vec<ValidationError> = Vec::new();
    let mut k: usize = 0;
    assert(lines.take(0) =~= Seq::<Seq<char>>::empty());
    while k < n
        invariant
            pv == parts@.map_values(|p: String| p@),
            pv == split_seq(error_str@, '\n'),
            lines == lines_seq(error_str@),
            n == lines.len(),
            n <= parts@.len(),
            k <= n,
            out@.map_values(|e: ValidationError| error_pair(e)) == field_errors(lines.take(k as int)),
            forall|i: int| 0 <= i < out@.len() ==> out@[i].code is None,
        decreases n - k,
    {
        let piece = parts[k].as_str();
        let len = piece.unicode_len();
        let line = if k + 1 < parts.len() && len > 0 && ends_with(piece, "\r") {
            piece.substring_char(0, len - 1)
        } else {
            piece.substring_char(0, len)
        };
        proof {
            reveal_strlit("\r");
            assert(pv[k as int] == piece@);
            if k + 1 < parts.len() && len > 0 {
                assert(piece@.subrange(piece@.len() - 1, piece@.len() as int)[0] == piece@.last());
                if piece@.last() == '\r' {
                    assert(piece@.subrange(piece@.len() - 1, piece@.len() as int) =~= "\r"@);
                }
                assert(piece@.drop_last() =~= piece@.subrange(0, len - 1));
            }
            assert(piece@.subrange(0, len as int) =~= piece@);
            assert(line@ == lines[k as int]);
            assert(lines.take(k + 1).drop_last() =~= lines.take(k as int));
            assert(lines.take(k + 1).last() == lines[k as int]);
        }
        let ghost before = out@.map_values(|e: ValidationError| error_pair(e));
        match find_char(line, ':') {
            Some(i) => {
                proof {
                    lemma_first_index_bounds(line@, ':');
                }
                let field = trim(line.substring_char(0, i)).to_owned();
                let message = trim(line.substring_char(i + 1, len_of(line))).to_owned();
                proof {
                    assert(line@.subrange(0, i as int) =~= line@.take(i as int));
                    assert(line@.subrange(i + 1, line@.len() as int) =~= line@.skip(i + 1));
                }
                out.push(ValidationError { field, message, code: None });
                proof {
                    assert(out@.map_values(|e: ValidationError| error_pair(e)) =~= before.push(
                        (trim_seq(line@.take(i as int)), trim_seq(line@.skip(i + 1))),
                    ));
                }
            },
            None => {},
        }
        k = k + 1;
    }
    proof {
        assert(lines.take(n as int) =~= lines);
    }
    if out.len() == 0 {
        None
    } else {
        Some(out)
    }
}

fn len_of(s: &str) -> (r: usize)
    ensures
        r == s@.len(),
{
    s.unicode_len()
}

} // verus!
