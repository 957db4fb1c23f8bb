use crate::http::HttpCode;
use vstd::prelude::*;

verus! {

/// The body that every response carries: `{code, message, data}`.
pub struct ResponseSchema<T> {
    pub code: String,
    pub message: String,
    pub data: T,
}

/// A response before it is sent: the HTTP status and the body.
pub struct ApiResponse<T> {
    pub status: u16,
    pub code: String,
    pub message: String,
    pub data: T,
}

impl<T> ApiResponse<T> {
    /// Wraps `data` with the status, code and message of a success marker
    /// or of an error.
    pub fn new<C: HttpCode>(http: C, data: T) -> (r: Self)
        ensures
            r.status == http.spec_status(),
            r.code@ == http.spec_code(),
            r.message@ == http.spec_message(),
            r.data == data,
    {
        let code = http.code().to_owned();
        let message = http.message().to_owned();
        ApiResponse { status: http.status(), code, message, data }
    }

    /// Splits the response into its status and its body.
    pub fn into_parts(self) -> (r: (u16, ResponseSchema<T>))
        ensures
            r.0 == self.status,
            r.1.code@ == self.code@,
            r.1.message@ == self.message@,
            r.1.data == self.data,
    {
        (self.status, ResponseSchema { code: self.code, message: self.message, data: self.data })
    }
}

} // verus!
