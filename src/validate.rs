use crate::error::ApiError;
use vstd::prelude::*;

verus! {

/// Why a JSON request body could not be read.
#[derive(Clone, Copy, Debug, PartialEq, Eq, Structural)]
pub enum BodyFailure {
    /// Well-formed JSON that does not have the expected shape.
    InvalidData,
    /// Anything else: no JSON content type, a syntax error, an unreadable body.
    Malformed,
}

/// A request body that was read and checked.
pub struct ValidJson<T>(pub T);

impl<T> ValidJson<T> {
    /// Admits a read body; a body of the wrong shape fails with
    /// `InvalidParameter`, any other failure with `BadRequest`.
    pub fn from_body(body: Result<T, BodyFailure>) -> (r: Result<ValidJson<T>, ApiError>)
        ensures
            match body {
                Ok(v) => r matches Ok(w) && w.0 == v,
                Err(BodyFailure::InvalidData) => r matches Err(e) && e == ApiError::InvalidParameter,
                Err(BodyFailure::Malformed) => r matches Err(e) && e == ApiError::BadRequest,
            },
    {
        match body {
            Ok(v) => Ok(ValidJson(v)),
            Err(BodyFailure::InvalidData) => Err(ApiError::InvalidParameter),
            Err(BodyFailure::Malformed) => Err(ApiError::BadRequest),
        }
    }
}

} // verus!
