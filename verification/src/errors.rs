//! Error values that the MCP surface returns to clients.

use vstd::prelude::*;

verus! {

/// Logical error codes exposed by the MCP surface.
#[derive(Clone, Copy, Debug, PartialEq, Eq, Structural)]
pub enum McpErrorCode {
    /// The target does not exist.
    NotFound,
    /// The caller is not authorized.
    Forbidden,
    /// The request conflicts with the current state.
    Conflict,
    /// The request is malformed.
    InvalidInput,
    /// An edit named a revision that is not the latest one.
    NotLatestRevision,
    /// An edit named an instance id that is not the latest one.
    InstanceIdNotMatch,
    /// The operation is not supported.
    Unsupported,
    /// An internal failure.
    InternalError,
}

/// The external spelling of each error code.
pub open spec fn code_text(code: McpErrorCode) -> Seq<char> {
    match code {
        McpErrorCode::NotFound => "not_found"@,
        McpErrorCode::Forbidden => "forbidden"@,
        McpErrorCode::Conflict => "conflict"@,
        McpErrorCode::InvalidInput => "invalid_input"@,
        McpErrorCode::NotLatestRevision => "not_latest_revision"@,
        McpErrorCode::InstanceIdNotMatch => "instance_id_not_match"@,
        McpErrorCode::Unsupported => "unsupported"@,
        McpErrorCode::InternalError => "internal_error"@,
    }
}

/// The external spelling of each error code, as the literal that carries it.
pub open spec fn code_str(code: McpErrorCode) -> &'static str {
    match code {
        McpErrorCode::NotFound => "not_found",
        McpErrorCode::Forbidden => "forbidden",
        McpErrorCode::Conflict => "conflict",
        McpErrorCode::InvalidInput => "invalid_input",
        McpErrorCode::NotLatestRevision => "not_latest_revision",
        McpErrorCode::InstanceIdNotMatch => "instance_id_not_match",
        McpErrorCode::Unsupported => "unsupported",
        McpErrorCode::InternalError => "internal_error",
    }
}

/// Distinct codes are spelled apart, so a client tells every code from its
/// spelling alone.
pub proof fn law_codes_spelled_apart(a: McpErrorCode, b: McpErrorCode)
    ensures
        code_text(a) == code_text(b) ==> a == b,
{
    reveal_strlit("not_found");
    reveal_strlit("forbidden");
    reveal_strlit("conflict");
    reveal_strlit("invalid_input");
    reveal_strlit("not_latest_revision");
    reveal_strlit("instance_id_not_match");
    reveal_strlit("unsupported");
    reveal_strlit("internal_error");
    if code_text(a) == code_text(b) {
        assert(code_text(a).len() == code_text(b).len());
        assert(code_text(a)[0] == code_text(b)[0]);
        assert(code_text(a)[1] == code_text(b)[1]);
        assert(code_text(a)[2] == code_text(b)[2]);
        assert(code_text(a)[4] == code_text(b)[4]);
    }
}

impl McpErrorCode {
    /// Returns the external spelling of the code.
    pub fn as_str(self) -> (s: &'static str)
        ensures
            s == code_str(self),
            s@ == code_text(self),
    {
        match self {
            McpErrorCode::NotFound => "not_found",
            McpErrorCode::Forbidden => "forbidden",
            McpErrorCode::Conflict => "conflict",
            McpErrorCode::InvalidInput => "invalid_input",
            McpErrorCode::NotLatestRevision => "not_latest_revision",
            McpErrorCode::InstanceIdNotMatch => "instance_id_not_match",
            McpErrorCode::Unsupported => "unsupported",
            McpErrorCode::InternalError => "internal_error",
        }
    }
}

/// A code with its message: how contracts speak of an error.
pub type ErrorView = (McpErrorCode, Seq<char>);

/// The code and message of an error.
pub open spec fn err_view(e: McpError) -> ErrorView {
    (e.spec_code(), e.spec_message())
}

/// Whether a result is the error `ev`.
pub open spec fn is_err_view<T>(r: Result<T, McpError>, ev: ErrorView) -> bool {
    r matches Err(e) && err_view(e) == ev
}

/// An MCP error: a code and a human readable message.
#[derive(Clone, Debug)]
pub struct McpError {
    code: McpErrorCode,
    message: String,
}

impl McpError {
    /// The error code.
    pub closed spec fn spec_code(&self) -> McpErrorCode {
        self.code
    }

    /// The message.
    pub closed spec fn spec_message(&self) -> Seq<char> {
        self.message@
    }

    /// Builds an error from a code and a message.
    pub fn new(code: McpErrorCode, message: String) -> (e: McpError)
        ensures
            e.spec_code() == code,
            e.spec_message() == message@,
    {
        McpError { code, message }
    }

    /// The refusal given to a read-only user who asks to write.
    pub fn forbidden_read_only() -> (e: McpError)
        ensures
            e.spec_code() == McpErrorCode::Forbidden,
            e.spec_message() == "read only denied: write operation is not allowed"@,
    {
        McpError::new(
            McpErrorCode::Forbidden,
            String::from_str("read only denied: write operation is not allowed"),
        )
    }

    /// The error code.
    pub fn code(&self) -> (c: McpErrorCode)
        ensures
            c == self.spec_code(),
    {
        self.code
    }

    /// The message.
    pub fn message(&self) -> (m: &str)
        ensures
            m@ == self.spec_message(),
    {
        self.message.as_str()
    }
}

/// The error body sent to clients: the external code and the message.
#[derive(Clone, Debug)]
pub struct McpErrorResponse {
    code: &'static str,
    message: String,
}

impl McpErrorResponse {
    /// The external code.
    pub closed spec fn spec_code(&self) -> Seq<char> {
        self.code@
    }

    /// The message.
    pub closed spec fn spec_message(&self) -> Seq<char> {
        self.message@
    }

    /// Builds a response body.
    pub fn new(code: &'static str, message: String) -> (r: McpErrorResponse)
        ensures
            r.spec_code() == code@,
            r.spec_message() == message@,
    {
        McpErrorResponse { code, message }
    }

    /// The response body for an error: its code spelled out and its message.
    pub fn from_error(error: McpError) -> (r: McpErrorResponse)
        ensures
            r.spec_code() == code_text(error.spec_code()),
            r.spec_message() == error.spec_message(),
    {
        let code = error.code().as_str();
        McpErrorResponse::new(code, error.message)
    }

    /// The external code.
    pub fn code(&self) -> (c: &'static str)
        ensures
            c@ == self.spec_code(),
    {
        self.code
    }

    /// The message.
    pub fn message(&self) -> (m: &str)
        ensures
            m@ == self.spec_message(),
    {
        self.message.as_str()
    }
}

impl From<McpError> for McpErrorResponse {
    /// The response body for an error, as `from_error` builds it.
    fn from(error: McpError) -> (r: McpErrorResponse)
        ensures
            r.spec_code() == code_text(error.spec_code()),
            r.spec_message() == error.spec_message(),
    {
        McpErrorResponse { code: error.code.as_str(), message: error.message }
    }
}

impl vstd::std_specs::convert::FromSpecImpl<McpError> for McpErrorResponse {
    open spec fn obeys_from_spec() -> bool {
        true
    }

    closed spec fn from_spec(error: McpError) -> McpErrorResponse {
        McpErrorResponse { code: code_str(error.code), message: error.message }
    }
}

} // verus!
