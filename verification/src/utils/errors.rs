use vstd::prelude::*;
use crate::text::text;
use vstd::string::*;

verus! {

/// What went wrong in a request. Each kind carries its detail text; the errors that the
/// database driver and the object-id parser raise are carried by their display text.
#[derive(Debug)]
pub enum CustomError {
    Database(String),
    Authentication(String),
    Forbidden(String),
    Server(String),
    NotFound(String),
    Conflict(String),
    MongoError(String),
    OIDParseError(String),
}

/// The body that describes a failed request.
#[derive(Debug)]
pub struct ErrorResponse {
    pub success: bool,
    pub error: ErrorDetail,
    pub timestamp: i64,
}

#[derive(Debug)]
pub struct ErrorDetail {
    pub code: String,
    pub message: String,
    pub details: Option<String>,
    pub retry_after: Option<u64>,
}

impl CustomError {
    /// The detail text that the error carries.
    pub open spec fn detail(self) -> Seq<char> {
        match self {
            CustomError::Database(m) => m@,
            CustomError::Authentication(m) => m@,
            CustomError::Forbidden(m) => m@,
            CustomError::Server(m) => m@,
            CustomError::NotFound(m) => m@,
            CustomError::Conflict(m) => m@,
            CustomError::MongoError(m) => m@,
            CustomError::OIDParseError(m) => m@,
        }
    }

    /// The HTTP status that answers the error.
    pub open spec fn status(self) -> u16 {
        match self {
            CustomError::Database(_) => 500,
            CustomError::Authentication(_) => 401,
            CustomError::Forbidden(_) => 403,
            CustomError::Server(_) => 500,
            CustomError::NotFound(_) => 404,
            CustomError::Conflict(_) => 409,
            CustomError::MongoError(_) => 500,
            CustomError::OIDParseError(_) => 400,
        }
    }

    /// The machine-readable code of the error.
    pub open spec fn code(self) -> Seq<char> {
        match self {
            CustomError::Database(_) => "DATABASE_ERROR"@,
            CustomError::Authentication(_) => "AUTHENTICATION_ERROR"@,
            CustomError::Forbidden(_) => "FORBIDDEN"@,
            CustomError::Server(_) => "SERVER_ERROR"@,
            CustomError::NotFound(_) => "NOT_FOUND"@,
            CustomError::Conflict(_) => "CONFLICT"@,
            CustomError::MongoError(_) => "DATABASE_ERROR"@,
            CustomError::OIDParseError(_) => "INVALID_ID"@,
        }
    }

    /// The human-readable summary of the error.
    pub open spec fn summary(self) -> Seq<char> {
        match self {
            CustomError::Database(_) => "Database operation failed"@,
            CustomError::Authentication(_) => "Invalid email or password"@,
            CustomError::Forbidden(_) => "Access denied"@,
            CustomError::Server(_) => "Internal server error"@,
            CustomError::NotFound(_) => "Resource not found"@,
            CustomError::Conflict(_) => "Resource conflict"@,
            CustomError::MongoError(_) => "Database operation failed"@,
            CustomError::OIDParseError(_) => "Invalid ID format"@,
        }
    }

    /// The HTTP status code that answers the error.
    pub fn to_status_code(&self) -> (r: u16)
        ensures
            r == self.status(),
    {
        match self {
            CustomError::Database(_) => 500,
            CustomError::Authentication(_) => 401,
            CustomError::Forbidden(_) => 403,
            CustomError::Server(_) => 500,
            CustomError::NotFound(_) => 404,
            CustomError::Conflict(_) => 409,
            CustomError::MongoError(_) => 500,
            CustomError::OIDParseError(_) => 400,
        }
    }

    /// The response body for the error, stamped with the current time.
    pub fn to_error_response(&self) -> (r: ErrorResponse)
        ensures
            r.describes(*self),
    {
        self.to_error_response_at(crate::utils::time::now_timestamp())
    }

    /// The response body for the error, stamped with the given time.
    pub fn to_error_response_at(&self, timestamp: i64) -> (r: ErrorResponse)
        ensures
            r.describes(*self),
            r.timestamp == timestamp,
    {
        let (code, message, details) = match self {
            CustomError::Database(msg) => (
                text("DATABASE_ERROR"),
                text("Database operation failed"),
                msg.clone(),
            ),
            CustomError::Authentication(msg) => (
                text("AUTHENTICATION_ERROR"),
                text("Invalid email or password"),
                msg.clone(),
            ),
            CustomError::Forbidden(msg) => (text("FORBIDDEN"), text("Access denied"), msg.clone()),
            CustomError::Server(msg) => (
                text("SERVER_ERROR"),
                text("Internal server error"),
                msg.clone(),
            ),
            CustomError::NotFound(msg) => (
                text("NOT_FOUND"),
                text("Resource not found"),
                msg.clone(),
            ),
            CustomError::Conflict(msg) => (
                text("CONFLICT"),
                text("Resource conflict"),
                msg.clone(),
            ),
            CustomError::MongoError(err) => (
                text("DATABASE_ERROR"),
                text("Database operation failed"),
                err.clone(),
            ),
            CustomError::OIDParseError(err) => (
                text("INVALID_ID"),
                text("Invalid ID format"),
                err.clone(),
            ),
        };
        ErrorResponse {
            success: false,
            error: ErrorDetail { code, message, details: Some(details), retry_after: None },
            timestamp,
        }
    }
}

impl CustomError {
    /// The prefix of the error's message, by kind.
    pub open spec fn label(self) -> Seq<char> {
        match self {
            CustomError::Database(_) => "Database error: "@,
            CustomError::Authentication(_) => "Authentication error: "@,
            CustomError::Forbidden(_) => "Forbidden: "@,
            CustomError::Server(_) => "Server error: "@,
            CustomError::NotFound(_) => "Not found: "@,
            CustomError::Conflict(_) => "Conflict: "@,
            CustomError::MongoError(_) => "MongoDB error: "@,
            CustomError::OIDParseError(_) => "ObjectId parsing error: "@,
        }
    }

    /// The error's message: its kind, then its detail.
    pub fn to_string(&self) -> (r: String)
        ensures
            r@ == self.label() + self.detail(),
    {
        let (mut r, d) = match self {
            CustomError::Database(m) => (text("Database error: "), m),
            CustomError::Authentication(m) => (text("Authentication error: "), m),
            CustomError::Forbidden(m) => (text("Forbidden: "), m),
            CustomError::Server(m) => (text("Server error: "), m),
            CustomError::NotFound(m) => (text("Not found: "), m),
            CustomError::Conflict(m) => (text("Conflict: "), m),
            CustomError::MongoError(m) => (text("MongoDB error: "), m),
            CustomError::OIDParseError(m) => (text("ObjectId parsing error: "), m),
        };
        r.append(d.as_str());
        r
    }
}

impl ErrorResponse {
    /// The body reports a failure of the given error: its code, its summary and its detail.
    pub open spec fn describes(self, e: CustomError) -> bool {
        &&& !self.success
        &&& self.error.code@ == e.code()
        &&& self.error.message@ == e.summary()
        &&& self.error.details matches Some(d) && d@ == e.detail()
        &&& self.error.retry_after is None
    }
}

impl From<String> for CustomError {
    fn from(err: String) -> (r: CustomError) {
        CustomError::Server(err)
    }
}

impl vstd::std_specs::convert::FromSpecImpl<String> for CustomError {
    open spec fn obeys_from_spec() -> bool {
        true
    }

    open spec fn from_spec(v: String) -> CustomError {
        CustomError::Server(v)
    }
}

/// Every error is answered by a failure body whose code and status agree: the database and
/// server errors by 500 with their codes, the others by their own status.
pub proof fn status_matches_code(e: CustomError)
    ensures
        e.status() == 500 <==> (e.code() == "DATABASE_ERROR"@ || e.code() == "SERVER_ERROR"@),
        e.status() == 401 <==> e.code() == "AUTHENTICATION_ERROR"@,
        e.status() == 403 <==> e.code() == "FORBIDDEN"@,
        e.status() == 404 <==> e.code() == "NOT_FOUND"@,
        e.status() == 409 <==> e.code() == "CONFLICT"@,
        e.status() == 400 <==> e.code() == "INVALID_ID"@,
{
    reveal_strlit("DATABASE_ERROR");
    reveal_strlit("SERVER_ERROR");
    reveal_strlit("AUTHENTICATION_ERROR");
    reveal_strlit("FORBIDDEN");
    reveal_strlit("NOT_FOUND");
    reveal_strlit("CONFLICT");
    reveal_strlit("INVALID_ID");
    // The codes differ in their first character.
    assert("DATABASE_ERROR"@[0] == 'D' && "SERVER_ERROR"@[0] == 'S' && "AUTHENTICATION_ERROR"@[0]
        == 'A' && "FORBIDDEN"@[0] == 'F' && "NOT_FOUND"@[0] == 'N' && "CONFLICT"@[0] == 'C'
        && "INVALID_ID"@[0] == 'I');
}

} // verus!

verus! {

/// The value, or a not-found error with the given text where there is none.
pub fn require_found<T>(opt: Option<T>, what: &str) -> (r: Result<T, CustomError>)
    ensures
        match opt {
            Some(x) => r == Ok::<T, CustomError>(x),
            None => r matches Err(CustomError::NotFound(m)) && m@ == what@,
        },
{
    match opt {
        Some(x) => Ok(x),
        None => Err(CustomError::NotFound(text(what))),
    }
}

/// A text made of three parts.
pub fn concat3(a: &str, b: &str, c: &str) -> (r: String)
    ensures
        r@ == a@ + b@ + c@,
{
    let mut r = text(a);
    r.append(b);
    r.append(c);
    r
}

} // verus!

verus! {

impl CustomError {
    /// The status and body that answer the error, stamped now.
    pub fn to_reply(&self) -> (r: (u16, ErrorResponse))
        ensures
            r.0 == self.status(),
            r.1.describes(*self),
    {
        (self.to_status_code(), self.to_error_response())
    }
}

/// A reply that only says whether the request succeeded, and why.
#[derive(Debug)]
pub struct StatusReply {
    pub success: bool,
    pub message: String,
}

/// The status and plain reply for an outcome with no value: the given status and message on
/// success; 400 and the error's message on failure.
pub fn status_reply(r: Result<(), CustomError>, ok_status: u16, ok_message: &str) -> (out: (
    u16,
    StatusReply,
))
    ensures
        match r {
            Ok(_) => out.0 == ok_status && out.1.success && out.1.message@ == ok_message@,
            Err(e) => out.0 == 400 && !out.1.success && out.1.message@ == e.label() + e.detail(),
        },
{
    match r {
        Ok(_) => (ok_status, StatusReply { success: true, message: text(ok_message) }),
        Err(e) => (400, StatusReply { success: false, message: e.to_string() }),
    }
}

} // verus!
