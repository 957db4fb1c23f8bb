use crate::http::HttpCode;
use vstd::prelude::*;

verus! {

/// Every way in which a request can fail. Each kind is bound to one
/// (status, code, message) triple for its whole lifetime.
#[derive(Clone, Copy, Debug, PartialEq, Eq, Structural)]
pub enum ApiError {
    BadRequest,
    Unauthenticated,
    PermissionDenied,
    InvalidParameter,
    UserNotFound,
    PasswordMismatched,
    DuplicatedEmail,
    AuthenticationFail,
    ServerError,
}

impl HttpCode for ApiError {
    open spec fn spec_status(&self) -> u16 {
        match self {
            ApiError::BadRequest => 400,
            ApiError::Unauthenticated => 401,
            ApiError::PermissionDenied => 403,
            ApiError::InvalidParameter => 422,
            ApiError::UserNotFound => 404,
            ApiError::PasswordMismatched => 409,
            ApiError::DuplicatedEmail => 409,
            ApiError::AuthenticationFail => 422,
            ApiError::ServerError => 500,
        }
    }

    open spec fn spec_code(&self) -> Seq<char> {
        match self {
            ApiError::BadRequest => "F001"@,
            ApiError::Unauthenticated => "F002"@,
            ApiError::PermissionDenied => "F003"@,
            ApiError::InvalidParameter => "F004"@,
            ApiError::UserNotFound => "F005"@,
            ApiError::PasswordMismatched => "F006"@,
            ApiError::DuplicatedEmail => "F007"@,
            ApiError::AuthenticationFail => "F008"@,
            ApiError::ServerError => "E001"@,
        }
    }

    open spec fn spec_message(&self) -> Seq<char> {
        match self {
            ApiError::BadRequest => "malformed request"@,
            ApiError::Unauthenticated => "authentication failed"@,
            ApiError::PermissionDenied => "insufficient permission"@,
            ApiError::InvalidParameter => "parameter validation error"@,
            ApiError::UserNotFound => "user not found"@,
            ApiError::PasswordMismatched => "password confirmation mismatch"@,
            ApiError::DuplicatedEmail => "email already registered"@,
            ApiError::AuthenticationFail => "email or password incorrect"@,
            ApiError::ServerError => "internal server error"@,
        }
    }

    fn status(&self) -> (r: u16) {
        match self {
            ApiError::BadRequest => 400,
            ApiError::Unauthenticated => 401,
            ApiError::PermissionDenied => 403,
            ApiError::InvalidParameter => 422,
            ApiError::UserNotFound => 404,
            ApiError::PasswordMismatched => 409,
            ApiError::DuplicatedEmail => 409,
            ApiError::AuthenticationFail => 422,
            ApiError::ServerError => 500,
        }
    }

    fn code(&self) -> (r: &'static str) {
        match self {
            ApiError::BadRequest => "F001",
            ApiError::Unauthenticated => "F002",
            ApiError::PermissionDenied => "F003",
            ApiError::InvalidParameter => "F004",
            ApiError::UserNotFound => "F005",
            ApiError::PasswordMismatched => "F006",
            ApiError::DuplicatedEmail => "F007",
            ApiError::AuthenticationFail => "F008",
            ApiError::ServerError => "E001",
        }
    }

    fn message(&self) -> (r: &'static str) {
        match self {
            ApiError::BadRequest => "malformed request",
            ApiError::Unauthenticated => "authentication failed",
            ApiError::PermissionDenied => "insufficient permission",
            ApiError::InvalidParameter => "parameter validation error",
            ApiError::UserNotFound => "user not found",
            ApiError::PasswordMismatched => "password confirmation mismatch",
            ApiError::DuplicatedEmail => "email already registered",
            ApiError::AuthenticationFail => "email or password incorrect",
            ApiError::ServerError => "internal server error",
        }
    }
}

} // verus!
