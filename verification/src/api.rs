//! The HTTP API's answers: the features it announces, its error bodies, and
//! the permission and validation checks of the user endpoints.
use vstd::prelude::*;
use crate::text::{join, lemma_concat, owned, push_string, texts};
use crate::user::{is_admin_roles, AuthenticatedUser, UserError};

verus! {

/// The body of an API error.
#[derive(Debug, Clone)]
pub struct ErrorResponse {
    pub success: bool,
    pub error: String,
    pub code: String,
    pub message: String,
}

/// An error body with its fields' texts.
pub open spec fn error_body(r: ErrorResponse, error: Seq<char>, code: Seq<char>, message: Seq<char>) -> bool {
    !r.success && r.error@ == error && r.code@ == code && r.message@ == message
}

impl ErrorResponse {
    /// Authentication is required.
    pub fn unauthorized() -> (r: Self)
        ensures
            error_body(r, "Unauthorized"@, "AUTH_REQUIRED"@, "Authentication required"@),
    {
        ErrorResponse {
            success: false,
            error: owned("Unauthorized"),
            code: owned("AUTH_REQUIRED"),
            message: owned("Authentication required"),
        }
    }

    /// The user lacks the permission.
    pub fn forbidden() -> (r: Self)
        ensures
            error_body(r, "Forbidden"@, "INSUFFICIENT_PERMISSIONS"@, "Insufficient permissions"@),
    {
        ErrorResponse {
            success: false,
            error: owned("Forbidden"),
            code: owned("INSUFFICIENT_PERMISSIONS"),
            message: owned("Insufficient permissions"),
        }
    }

    /// The resource does not exist.
    pub fn not_found(resource: &str) -> (r: Self)
        ensures
            error_body(r, "Not Found"@, "RESOURCE_NOT_FOUND"@, "Resource not found: "@ + resource@),
    {
        proof {
            lemma_concat("Resource not found: ", resource, "", "", "");
        }
        ErrorResponse {
            success: false,
            error: owned("Not Found"),
            code: owned("RESOURCE_NOT_FOUND"),
            message: join(&["Resource not found: ", resource]),
        }
    }

    /// The request was invalid, for the reason given.
    pub fn validation_error(message: &str) -> (r: Self)
        ensures
            error_body(r, "Validation Error"@, "VALIDATION_FAILED"@, message@),
    {
        ErrorResponse {
            success: false,
            error: owned("Validation Error"),
            code: owned("VALIDATION_FAILED"),
            message: owned(message),
        }
    }

    /// Something failed on the server.
    pub fn internal_error() -> (r: Self)
        ensures
            error_body(
                r,
                "Internal Server Error"@,
                "INTERNAL_ERROR"@,
                "An internal server error occurred"@,
            ),
    {
        ErrorResponse {
            success: false,
            error: owned("Internal Server Error"),
            code: owned("INTERNAL_ERROR"),
            message: owned("An internal server error occurred"),
        }
    }
}

/// An HTTP status with the error body sent with it.
pub type ApiFailure = (u16, ErrorResponse);

/// The features the service announces.
pub open spec fn enabled_features() -> Seq<Seq<char>> {
    seq!["user-profiles"@, "music-library"@, "playlists"@]
}

/// The list of enabled features: user profiles, the music library and
/// playlists.
pub fn get_enabled_features() -> (r: Vec<String>)
    ensures
        texts(r@) == enabled_features(),
{
    let mut v: Vec<String> = Vec::new();
    push_string(&mut v, "user-profiles");
    push_string(&mut v, "music-library");
    push_string(&mut v, "playlists");
    assert(texts(v@) =~= enabled_features());
    v
}

/// A user may not follow themself.
pub fn check_follow(current_user_id: i64, user_id: i64) -> (r: Result<(), ApiFailure>)
    ensures
        current_user_id != user_id ==> r is Ok,
        current_user_id == user_id ==> (r matches Err((s, body)) && s == 400 && error_body(
            body,
            "Validation Error"@,
            "VALIDATION_FAILED"@,
            "Cannot follow yourself"@,
        )),
{
    if current_user_id == user_id {
        return Err((400, ErrorResponse::validation_error("Cannot follow yourself")));
    }
    Ok(())
}

/// Only administrators may use the admin endpoints.
pub fn check_admin(user: &AuthenticatedUser) -> (r: Result<(), ApiFailure>)
    ensures
        is_admin_roles(user.roles@) ==> r is Ok,
        !is_admin_roles(user.roles@) ==> (r matches Err((s, body)) && s == 403 && error_body(
            body,
            "Forbidden"@,
            "INSUFFICIENT_PERMISSIONS"@,
            "Insufficient permissions"@,
        )),
{
    if !user.is_admin() {
        return Err((403, ErrorResponse::forbidden()));
    }
    Ok(())
}

/// An administrator may delete any account but their own.
pub fn check_admin_delete(admin_user: &AuthenticatedUser, user_id: i64) -> (r: Result<(), ApiFailure>)
    ensures
        !is_admin_roles(admin_user.roles@) ==> (r matches Err((s, body)) && s == 403 && error_body(
            body,
            "Forbidden"@,
            "INSUFFICIENT_PERMISSIONS"@,
            "Insufficient permissions"@,
        )),
        is_admin_roles(admin_user.roles@) && admin_user.id == user_id ==> (r matches Err((s, body))
            && s == 400 && error_body(
            body,
            "Validation Error"@,
            "VALIDATION_FAILED"@,
            "Cannot delete your own account"@,
        )),
        is_admin_roles(admin_user.roles@) && admin_user.id != user_id ==> r is Ok,
{
    check_admin(admin_user)?;
    if admin_user.id == user_id {
        return Err((400, ErrorResponse::validation_error("Cannot delete your own account")));
    }
    Ok(())
}

/// The answer to a failed profile update: the validation message as a bad
/// request, anything else as an internal error.
pub fn update_failure(e: &UserError) -> (r: ApiFailure)
    ensures
        match e {
            UserError::Validation(m) => r.0 == 400 && error_body(
                r.1,
                "Validation Error"@,
                "VALIDATION_FAILED"@,
                m@,
            ),
            _ => r.0 == 500 && error_body(
                r.1,
                "Internal Server Error"@,
                "INTERNAL_ERROR"@,
                "An internal server error occurred"@,
            ),
        },
{
    match e {
        UserError::Validation(m) => (400, ErrorResponse::validation_error(m.as_str())),
        _ => (500, ErrorResponse::internal_error()),
    }
}

/// The answer to a failed lookup of `resource`: not found as such, anything
/// else as an internal error.
pub fn lookup_failure(e: &UserError, resource: &str) -> (r: ApiFailure)
    ensures
        match e {
            UserError::NotFound(_) => r.0 == 404 && error_body(
                r.1,
                "Not Found"@,
                "RESOURCE_NOT_FOUND"@,
                "Resource not found: "@ + resource@,
            ),
            _ => r.0 == 500 && error_body(
                r.1,
                "Internal Server Error"@,
                "INTERNAL_ERROR"@,
                "An internal server error occurred"@,
            ),
        },
{
    match e {
        UserError::NotFound(_) => (404, ErrorResponse::not_found(resource)),
        _ => (500, ErrorResponse::internal_error()),
    }
}

} // verus!
