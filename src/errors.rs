use vstd::prelude::*;
use vstd::string::StringExecFns;

use crate::request::{decimal, push_decimal};

verus! {

/// Every failure the client reports, one variant per category.
pub enum ByteStashyError {
    /// Bad credentials or an expired key.
    Auth { message: String },
    /// The server rejected the request's fields (HTTP 400); the body is kept as sent.
    Validation { message: String },
    /// The requested resource does not exist (HTTP 404).
    NotFound,
    /// Any other non-success status, with the body text.
    Api { status: u16, message: String },
    /// A response body did not decode as the expected JSON.
    Protocol { message: String },
    /// A local file could not be opened or read.
    FileOperation { path: String, cause: String },
    /// The config file and the credential vault disagree, or the vault failed.
    Credential { message: String },
    /// A local precondition failed before any request was sent.
    InvalidInput(String),
    /// The request could not be delivered, or an interactive prompt failed.
    Transport { message: String },
}

impl ByteStashyError {
    /// Create an authentication error.
    pub fn auth(message: &str) -> (r: Self)
        ensures
            r matches ByteStashyError::Auth { message: m } && m@ == message@,
    {
        ByteStashyError::Auth { message: String::from_str(message) }
    }

    /// Create an API error carrying an HTTP status.
    pub fn api(status: u16, message: &str) -> (r: Self)
        ensures
            r matches ByteStashyError::Api { status: s, message: m } && s == status && m@
                == message@,
    {
        ByteStashyError::Api { status, message: String::from_str(message) }
    }

    /// Create a file operation error naming the path and the cause.
    pub fn file_operation(path: &str, cause: &str) -> (r: Self)
        ensures
            r matches ByteStashyError::FileOperation { path: p, cause: c } && p@ == path@ && c@
                == cause@,
    {
        ByteStashyError::FileOperation { path: String::from_str(path), cause: String::from_str(cause) }
    }

    /// Create an input validation error.
    pub fn invalid_input(message: &str) -> (r: Self)
        ensures
            r matches ByteStashyError::InvalidInput(m) && m@ == message@,
    {
        ByteStashyError::InvalidInput(String::from_str(message))
    }

    /// The process exit code for this category: 1 for authentication
    /// failures, 2 for invalid input, 3 for API errors, 1 for the rest.
    pub fn exit_code(&self) -> (r: i32)
        ensures
            r == exit_code_of(*self),
    {
        match self {
            ByteStashyError::Auth { .. } => 1,
            ByteStashyError::InvalidInput(_) => 2,
            ByteStashyError::Api { .. } => 3,
            _ => 1,
        }
    }

    /// The text a user is shown for this error.
    pub fn to_text(&self) -> (r: String)
        ensures
            r@ == error_text(*self),
    {
        match self {
            ByteStashyError::Auth { message } => {
                let mut r = String::from_str("Authentication failed: ");
                r.append(message.as_str());
                r
            },
            ByteStashyError::Validation { message } => {
                let mut r = String::from_str("Validation failed: ");
                r.append(message.as_str());
                r
            },
            ByteStashyError::NotFound => String::from_str("Snippet not found"),
            ByteStashyError::Api { status, message } => {
                let mut r = String::from_str("API error: HTTP ");
                push_decimal(&mut r, *status as u64);
                r.append(" - ");
                r.append(message.as_str());
                r
            },
            ByteStashyError::Protocol { message } => {
                let mut r = String::from_str("Invalid response: ");
                r.append(message.as_str());
                r
            },
            ByteStashyError::FileOperation { path, cause } => {
                let mut r = String::from_str("File operation failed: ");
                r.append(path.as_str());
                r.append(" - ");
                r.append(cause.as_str());
                r
            },
            ByteStashyError::Credential { message } => {
                let mut r = String::from_str("Credential error: ");
                r.append(message.as_str());
                r
            },
            ByteStashyError::InvalidInput(message) => {
                let mut r = String::from_str("Invalid input: ");
                r.append(message.as_str());
                r
            },
            ByteStashyError::Transport { message } => {
                let mut r = String::from_str("Request failed: ");
                r.append(message.as_str());
                r
            },
        }
    }
}

/// The text a user is shown for `e`.
pub open spec fn error_text(e: ByteStashyError) -> Seq<char> {
    match e {
        ByteStashyError::Auth { message } => "Authentication failed: "@ + message@,
        ByteStashyError::Validation { message } => "Validation failed: "@ + message@,
        ByteStashyError::NotFound => "Snippet not found"@,
        ByteStashyError::Api { status, message } => "API error: HTTP "@ + decimal(status as nat)
            + " - "@ + message@,
        ByteStashyError::Protocol { message } => "Invalid response: "@ + message@,
        ByteStashyError::FileOperation { path, cause } => "File operation failed: "@ + path@
            + " - "@ + cause@,
        ByteStashyError::Credential { message } => "Credential error: "@ + message@,
        ByteStashyError::InvalidInput(message) => "Invalid input: "@ + message@,
        ByteStashyError::Transport { message } => "Request failed: "@ + message@,
    }
}

/// The exit code for the category of `e`.
pub open spec fn exit_code_of(e: ByteStashyError) -> i32 {
    match e {
        ByteStashyError::Auth { .. } => 1,
        ByteStashyError::InvalidInput(_) => 2,
        ByteStashyError::Api { .. } => 3,
        _ => 1,
    }
}

} // verus!
