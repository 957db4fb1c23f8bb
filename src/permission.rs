use crate::authentication::{authentication_verdict, header_view, Authentication};
use crate::claims::{Claims, ClaimsView};
use crate::error::ApiError;
use vstd::prelude::*;

verus! {

/// The least permission tier that a gate asks for.
#[derive(Clone, Copy, Debug, PartialEq, Eq, Structural)]
pub enum Tier {
    /// Any signed-in user (tier 1).
    Authenticated,
    /// Administrators only (tier 2).
    AdminOnly,
}

impl Tier {
    pub open spec fn spec_level(self) -> i8 {
        match self {
            Tier::Authenticated => 1,
            Tier::AdminOnly => 2,
        }
    }

    pub fn level(self) -> (r: i8)
        ensures
            r == self.spec_level(),
    {
        match self {
            Tier::Authenticated => 1,
            Tier::AdminOnly => 2,
        }
    }
}

/// Claims that passed a permission gate.
pub struct ClaimsWrapper {
    pub claims: Claims,
}

/// What the tier check yields for verified claims.
pub open spec fn permission_verdict(c: ClaimsView, required: Tier) -> Result<ClaimsView, ApiError> {
    if c.permission >= required.spec_level() {
        Ok(c)
    } else {
        Err(ApiError::PermissionDenied)
    }
}

/// What a permission gate yields for an `Authorization` value: the
/// authentication failure if there is one, else the tier check.
pub open spec fn gate_verdict(header: Option<Seq<char>>, required: Tier, secret: Seq<char>, now: i64) -> Result<
    ClaimsView,
    ApiError,
> {
    match authentication_verdict(header, secret, now) {
        Ok(c) => permission_verdict(c, required),
        Err(e) => Err(e),
    }
}

impl ClaimsWrapper {
    /// Admits verified claims whose tier is at least `required`.
    pub fn check(claims: Claims, required: Tier) -> (r: Result<ClaimsWrapper, ApiError>)
        ensures
            match r {
                Ok(w) => permission_verdict(claims@, required) == Ok::<ClaimsView, ApiError>(
                    w.claims@,
                ),
                Err(e) => permission_verdict(claims@, required) == Err::<ClaimsView, ApiError>(e),
            },
    {
        if claims.permission >= required.level() {
            Ok(ClaimsWrapper { claims })
        } else {
            Err(ApiError::PermissionDenied)
        }
    }

    /// Runs the authentication gate on the `Authorization` value, then the
    /// tier check.
    pub fn from_header(header: Option<&str>, required: Tier, secret: &str, now: i64) -> (r: Result<
        ClaimsWrapper,
        ApiError,
    >)
        ensures
            match r {
                Ok(w) => gate_verdict(header_view(header), required, secret@, now) == Ok::<
                    ClaimsView,
                    ApiError,
                >(w.claims@),
                Err(e) => gate_verdict(header_view(header), required, secret@, now) == Err::<
                    ClaimsView,
                    ApiError,
                >(e),
            },
    {
        match Authentication::from_header(header, secret, now) {
            Ok(Authentication(claims)) => ClaimsWrapper::check(claims, required),
            Err(e) => Err(e),
        }
    }
}

/// The tier check is inclusive: claims of exactly the required tier pass,
/// claims one tier below are refused with `PermissionDenied`.
pub proof fn lemma_tier_boundary(c: ClaimsView, required: Tier)
    ensures
        c.permission == required.spec_level() ==> permission_verdict(c, required) == Ok::<
            ClaimsView,
            ApiError,
        >(c),
        c.permission == required.spec_level() - 1 ==> permission_verdict(c, required) == Err::<
            ClaimsView,
            ApiError,
        >(ApiError::PermissionDenied),
{
}

} // verus!
