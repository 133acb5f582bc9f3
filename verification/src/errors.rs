//! The closed set of failures the library reports, and how each one is
//! presented at the HTTP boundary: a status code and a status label.

use vstd::prelude::*;

verus! {

/// Every way an operation of this library can fail.
#[derive(Debug)]
pub enum ApiError {
    /// No case or user exists under the requested identifier.
    NotFound,
    /// A uniqueness rule was violated: a duplicate case title,
    /// a duplicate email, or a colliding fresh identifier.
    Conflict,
    /// The caller's token is missing, expired, or names no known user.
    Unauthorized,
    /// Login failed; deliberately silent about whether the email or the
    /// password was wrong.
    InvalidCredentials,
    /// A dispatch was asked for with a verb that cannot be executed;
    /// carries the normalized method so the caller sees what was refused.
    MethodNotSupported(String),
    /// The outbound call never produced a response; carries the transport's
    /// own description of the failure.
    DispatchFailed(String),
    /// The backing store misbehaved.
    StorageError,
}

/// The HTTP status code each failure is reported with.
pub fn status_of(e: &ApiError) -> (r: u16)
    ensures
        r == status_of_spec(*e),
{
    match e {
        ApiError::NotFound => 404,
        ApiError::Conflict => 409,
        ApiError::Unauthorized => 401,
        ApiError::InvalidCredentials => 400,
        ApiError::MethodNotSupported(_) => 405,
        ApiError::DispatchFailed(_) => 500,
        ApiError::StorageError => 500,
    }
}

pub open spec fn status_of_spec(e: ApiError) -> u16 {
    match e {
        ApiError::NotFound => 404,
        ApiError::Conflict => 409,
        ApiError::Unauthorized => 401,
        ApiError::InvalidCredentials => 400,
        ApiError::MethodNotSupported(_) => 405,
        ApiError::DispatchFailed(_) => 500,
        ApiError::StorageError => 500,
    }
}

/// Whether a failure is blamed on the request (`"fail"`) rather than on the
/// server or the dispatch target (`"error"`).
pub open spec fn is_request_fault(e: ApiError) -> bool {
    match e {
        ApiError::NotFound => true,
        ApiError::Conflict => true,
        ApiError::Unauthorized => true,
        ApiError::InvalidCredentials => true,
        ApiError::MethodNotSupported(_) => false,
        ApiError::DispatchFailed(_) => false,
        ApiError::StorageError => false,
    }
}

/// The `status` field of the JSON envelope: `"fail"` for failures the caller
/// can correct, `"error"` for the rest.
pub fn status_label(e: &ApiError) -> (r: &'static str)
    ensures
        is_request_fault(*e) ==> r@ == "fail"@,
        !is_request_fault(*e) ==> r@ == "error"@,
{
    match e {
        ApiError::NotFound => "fail",
        ApiError::Conflict => "fail",
        ApiError::Unauthorized => "fail",
        ApiError::InvalidCredentials => "fail",
        ApiError::MethodNotSupported(_) => "error",
        ApiError::DispatchFailed(_) => "error",
        ApiError::StorageError => "error",
    }
}

/// The message a missing case is reported with.
pub fn not_found_message(id: &str) -> (r: String)
    ensures
        r@ == "Case with ID: "@ + id@ + " not found"@,
{
    let mut out: String = "Case with ID: ".to_owned();
    out.append(id);
    out.append(" not found");
    out
}

/// The message a refused verb is reported with.
pub fn method_message(method: &str) -> (r: String)
    ensures
        r@ == "Method: "@ + method@ + " is not supported"@,
{
    let mut out: String = "Method: ".to_owned();
    out.append(method);
    out.append(" is not supported");
    out
}

/// The one message both login failures share: which of the two fields was
/// wrong is deliberately not told.
pub fn invalid_credentials_message() -> (r: String)
    ensures
        r@ == "Invalid email or password"@,
{
    "Invalid email or password".to_owned()
}

/// The message a duplicate registration is refused with.
pub fn email_conflict_message() -> (r: String)
    ensures
        r@ == "User with that email already exists"@,
{
    "User with that email already exists".to_owned()
}

/// The message a duplicate case title is refused with.
pub fn title_conflict_message() -> (r: String)
    ensures
        r@ == "Case with that title already exists"@,
{
    "Case with that title already exists".to_owned()
}

} // verus!
