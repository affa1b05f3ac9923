use vstd::prelude::*;
use vstd::string::StringExecFns;

use crate::errors::ByteStashyError;
use crate::json::{is_json, json_valid};

verus! {

/// What the classifier owes for a response with `status` and `body`.
pub open spec fn classified(status: u16, body: Seq<char>, r: Result<String, ByteStashyError>) -> bool {
    if status == 200 || status == 201 {
        if json_valid(body) {
            r matches Ok(s) && s@ == body
        } else {
            r matches Err(ByteStashyError::Protocol { message }) && message@
                == "response was not valid JSON"@
        }
    } else if status == 401 {
        r matches Err(ByteStashyError::Auth { message }) && message@
            == "api key is invalid or expired; run `bytestashy login <url>` to regenerate it"@
    } else if status == 404 {
        r matches Err(ByteStashyError::NotFound)
    } else if status == 400 {
        r matches Err(ByteStashyError::Validation { message }) && message@ == body
    } else {
        r matches Err(ByteStashyError::Api { status: s, message }) && s == status && message@
            == body
    }
}

/// Map an HTTP status and body to the JSON text of a successful response or
/// to the matching failure. Every endpoint hands its response to this routine.
pub fn classify(status: u16, body: &str) -> (r: Result<String, ByteStashyError>)
    ensures
        classified(status, body@, r),
{
    if status == 200 || status == 201 {
        if is_json(body) {
            Ok(String::from_str(body))
        } else {
            Err(ByteStashyError::Protocol { message: String::from_str("response was not valid JSON") })
        }
    } else if status == 401 {
        Err(
            ByteStashyError::auth(
                "api key is invalid or expired; run `bytestashy login <url>` to regenerate it",
            ),
        )
    } else if status == 404 {
        Err(ByteStashyError::NotFound)
    } else if status == 400 {
        Err(ByteStashyError::Validation { message: String::from_str(body) })
    } else {
        Err(ByteStashyError::api(status, body))
    }
}

} // verus!
