use crate::claims::{Claims, ClaimsView};
use crate::error::ApiError;
use crate::jwt::{decode_jwt, token_verdict};
use vstd::prelude::*;
use vstd::string::StrSliceExecFns;

verus! {

/// The claims of a request whose token was verified.
pub struct Authentication(pub Claims);

/// `Bearer ` followed by a space.
pub open spec fn bearer_prefix() -> Seq<char> {
    seq!['B', 'e', 'a', 'r', 'e', 'r', ' ']
}

/// The token of an `Authorization` value of the form `Bearer <token>`.
pub open spec fn bearer_token(value: Seq<char>) -> Option<Seq<char>> {
    if value.len() >= 7 && value.take(7) == bearer_prefix() {
        Some(value.skip(7))
    } else {
        None
    }
}

/// The view of an optional header value.
pub open spec fn header_view(header: Option<&str>) -> Option<Seq<char>> {
    match header {
        Some(h) => Some(h@),
        None => None,
    }
}

/// What the authentication gate yields for an `Authorization` value:
/// `None` stands for a header that is absent or cannot be read as text.
pub open spec fn authentication_verdict(header: Option<Seq<char>>, secret: Seq<char>, now: i64) -> Result<
    ClaimsView,
    ApiError,
> {
    match header {
        None => Err(ApiError::Unauthenticated),
        Some(value) => match bearer_token(value) {
            None => Err(ApiError::Unauthenticated),
            Some(token) => token_verdict(token, secret, now),
        },
    }
}

/// Strips the `Bearer ` prefix.
pub fn strip_bearer(value: &str) -> (r: Option<&str>)
    ensures
        match r {
            Some(t) => bearer_token(value@) == Some(t@),
            None => bearer_token(value@) is None,
        },
{
    let len = value.unicode_len();
    if len < 7 {
        return None;
    }
    let prefix = ['B', 'e', 'a', 'r', 'e', 'r', ' '];
    let mut i: usize = 0;
    while i < 7
        invariant
            i <= 7,
            len == value@.len(),
            len >= 7,
            prefix@ == bearer_prefix(),
            forall|j: int| 0 <= j < i ==> value@[j] == bearer_prefix()[j],
        decreases 7 - i,
    {
        if value.get_char(i) != prefix[i] {
            return None;
        }
        i = i + 1;
    }
    assert(value@.take(7) =~= bearer_prefix());
    Some(value.substring_char(7, len))
}

impl Authentication {
    /// Authenticates a request from its `Authorization` value at time `now`.
    /// `header` is `None` when the header is absent or cannot be read as
    /// text.
    pub fn from_header(header: Option<&str>, secret: &str, now: i64) -> (r: Result<
        Authentication,
        ApiError,
    >)
        ensures
            match r {
                Ok(a) => authentication_verdict(header_view(header), secret@, now) == Ok::<
                    ClaimsView,
                    ApiError,
                >(a.0@),
                Err(e) => authentication_verdict(header_view(header), secret@, now) == Err::<
                    ClaimsView,
                    ApiError,
                >(e),
            },
    {
        let value = match header {
            Some(v) => v,
            None => return Err(ApiError::Unauthenticated),
        };
        let token = match strip_bearer(value) {
            Some(t) => t,
            None => return Err(ApiError::Unauthenticated),
        };
        match decode_jwt(token, secret, now) {
            Ok(claims) => Ok(Authentication(claims)),
            Err(e) => Err(e),
        }
    }
}

} // verus!
