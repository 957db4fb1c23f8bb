use crate::error::ApiError;
use crate::jwt::{claims_at, encode_jwt, issued_token, LATEST_ISSUE_TIME, TOKEN_LIFETIME};
use crate::user::{LoginUser, Model, RegisterUser, UserCreateCommand};
use vstd::prelude::*;

verus! {

/// Cost factor of new password hashes.
pub const HASH_COST: u32 = 10;

/// Whether `password` matches the bcrypt hash `hash`; `None` when `hash` is
/// not a well-formed bcrypt hash.
pub uninterp spec fn bcrypt_check(password: Seq<char>, hash: Seq<char>) -> Option<bool>;

/// Relies on bcrypt's `verify`: it reads the cost and the salt from `hash`,
/// hashes `password` with them and compares. The outcome depends on the two
/// strings alone; it fails only on a malformed hash.
#[verifier::external_body]
fn check_password(password: &str, hash: &str) -> (r: Option<bool>)
    ensures
        r == bcrypt_check(password@, hash@),
{
    bcrypt::verify(password, hash).ok()
}

/// Relies on bcrypt's `hash`: the salt is drawn at random, and the hash
/// holds the cost and the salt, so that `verify` recomputes the same digest
/// from it and accepts `password`. It fails when the cost is out of range
/// or no randomness can be had.
#[verifier::external_body]
fn hash_password(password: &str, cost: u32) -> (r: Option<String>)
    ensures
        r matches Some(h) ==> bcrypt_check(password@, h@) == Some(true),
{
    bcrypt::hash(password, cost).ok()
}

/// Permission tier of a user: 2 for administrators, 1 for everyone else.
pub open spec fn tier_of(is_admin: bool) -> i8 {
    if is_admin {
        2
    } else {
        1
    }
}

pub fn get_permission_level(is_admin: bool) -> (r: i8)
    ensures
        r == tier_of(is_admin),
{
    if is_admin {
        2
    } else {
        1
    }
}

/// What logging in with `password` yields at time `now`, given the user
/// that the repository holds for the email, if any.
pub open spec fn login_outcome(user: Option<Model>, password: Seq<char>, secret: Seq<char>, now: i64) -> Result<
    Seq<char>,
    ApiError,
> {
    match user {
        None => Err(ApiError::AuthenticationFail),
        Some(u) => match bcrypt_check(password, u.hashed_password@) {
            None => Err(ApiError::ServerError),
            Some(false) => Err(ApiError::AuthenticationFail),
            Some(true) => Ok(
                issued_token(claims_at(u.id, u.email@, tier_of(u.is_admin), now), secret),
            ),
        },
    }
}

/// Login and registration, signing tokens with one secret.
pub struct AuthService {
    pub secret: String,
}

impl AuthService {
    pub fn new(secret: String) -> (r: AuthService)
        ensures
            r.secret == secret,
    {
        AuthService { secret }
    }

    /// Logs in at time `now`. `user` is what the repository holds for
    /// `data.email`.
    pub fn login(&self, data: &LoginUser, user: Option<Model>, now: i64) -> (r: Result<
        String,
        ApiError,
    >)
        requires
            now <= LATEST_ISSUE_TIME,
        ensures
            match r {
                Ok(t) => login_outcome(user, data.password@, self.secret@, now) == Ok::<
                    Seq<char>,
                    ApiError,
                >(t@),
                Err(e) => login_outcome(user, data.password@, self.secret@, now) == Err::<
                    Seq<char>,
                    ApiError,
                >(e),
            },
    {
        let u = match user {
            Some(u) => u,
            None => return Err(ApiError::AuthenticationFail),
        };
        match check_password(data.password.as_str(), u.hashed_password.as_str()) {
            None => Err(ApiError::ServerError),
            Some(false) => Err(ApiError::AuthenticationFail),
            Some(true) => {
                let level = get_permission_level(u.is_admin);
                Ok(encode_jwt(u.id, u.email.as_str(), level, now, self.secret.as_str()))
            },
        }
    }

    /// First step of registration, before any repository access: the
    /// password and its confirmation must agree.
    pub fn register_check(data: &RegisterUser) -> (r: Result<(), ApiError>)
        ensures
            r is Ok <==> data.password@ == data.password_check@,
            r matches Err(e) ==> e == ApiError::PasswordMismatched,
    {
        if data.password == data.password_check {
            Ok(())
        } else {
            Err(ApiError::PasswordMismatched)
        }
    }

    /// Second step, once the repository was asked for a user with the same
    /// email: a taken email fails with `DuplicatedEmail` and nothing is to
    /// be created; otherwise the password is hashed into a create command.
    pub fn register_command(data: RegisterUser, existing: Option<Model>) -> (r: Result<
        UserCreateCommand,
        ApiError,
    >)
        ensures
            existing is Some ==> r == Err::<UserCreateCommand, ApiError>(
                ApiError::DuplicatedEmail,
            ),
            existing is None ==> (r matches Ok(c) ==> c.name == data.name && c.email == data.email
                && bcrypt_check(data.password@, c.hashed_password@) == Some(true)) && (r matches Err(
                e,
            ) ==> e == ApiError::ServerError),
    {
        if existing.is_some() {
            return Err(ApiError::DuplicatedEmail);
        }
        match hash_password(data.password.as_str(), HASH_COST) {
            Some(hashed) => Ok(UserCreateCommand { name: data.name, email: data.email, hashed_password: hashed }),
            None => Err(ApiError::ServerError),
        }
    }

    /// Last step at time `now`: the token for the user that the repository
    /// created.
    pub fn register_token(&self, created: &Model, now: i64) -> (r: String)
        requires
            now <= LATEST_ISSUE_TIME,
        ensures
            r@ == issued_token(
                claims_at(created.id, created.email@, tier_of(created.is_admin), now),
                self.secret@,
            ),
    {
        let level = get_permission_level(created.is_admin);
        encode_jwt(created.id, created.email.as_str(), level, now, self.secret.as_str())
    }

}

/// What the registration driver hands to the next step.
pub enum RegisterEvent {
    /// The registration form was received.
    Submitted(RegisterUser),
    /// The repository was asked for a user with the form's email.
    LookedUp(RegisterUser, Option<Model>),
    /// The repository created the user.
    Created(Model),
}

/// What the registration driver is to do next.
pub enum RegisterAction {
    /// Ask the repository for a user with this form's email.
    LookUp(RegisterUser),
    /// Ask the repository to create this user.
    Create(UserCreateCommand),
    /// Registration is done: answer with this token.
    Finish(String),
    /// Registration failed.
    Fail(ApiError),
}

impl AuthService {
    /// One step of registration at time `now`. A form whose password and
    /// confirmation differ fails at once, before any repository access; a
    /// taken email fails with `DuplicatedEmail` and nothing is created.
    pub fn register_step(&self, event: RegisterEvent, now: i64) -> (r: RegisterAction)
        requires
            now <= LATEST_ISSUE_TIME,
        ensures
            match event {
                RegisterEvent::Submitted(d) => if d.password@ == d.password_check@ {
                    r == RegisterAction::LookUp(d)
                } else {
                    r == RegisterAction::Fail(ApiError::PasswordMismatched)
                },
                RegisterEvent::LookedUp(d, existing) => match existing {
                    Some(_) => r == RegisterAction::Fail(ApiError::DuplicatedEmail),
                    None => match r {
                        RegisterAction::Create(c) => c.name == d.name && c.email == d.email
                            && bcrypt_check(d.password@, c.hashed_password@) == Some(true),
                        RegisterAction::Fail(e) => e == ApiError::ServerError,
                        _ => false,
                    },
                },
                RegisterEvent::Created(m) => match r {
                    RegisterAction::Finish(t) => t@ == issued_token(
                        claims_at(m.id, m.email@, tier_of(m.is_admin), now),
                        self.secret@,
                    ),
                    _ => false,
                },
            },
    {
        match event {
            RegisterEvent::Submitted(d) => match AuthService::register_check(&d) {
                Ok(()) => RegisterAction::LookUp(d),
                Err(e) => RegisterAction::Fail(e),
            },
            RegisterEvent::LookedUp(d, existing) => match AuthService::register_command(d, existing) {
                Ok(c) => RegisterAction::Create(c),
                Err(e) => RegisterAction::Fail(e),
            },
            RegisterEvent::Created(m) => RegisterAction::Finish(self.register_token(&m, now)),
        }
    }
}

/// Logging in with the right password gives the token that is issued for
/// the user's id and email, with tier 2 for administrators and 1 for
/// everyone else; `decode_jwt` reads exactly these claims back from it
/// until it expires.
pub proof fn lemma_login_token_identity(u: Model, password: Seq<char>, secret: Seq<char>, now: i64)
    requires
        bcrypt_check(password, u.hashed_password@) == Some(true),
        now <= LATEST_ISSUE_TIME,
    ensures
        login_outcome(Some(u), password, secret, now) == Ok::<Seq<char>, ApiError>(
            issued_token(claims_at(u.id, u.email@, tier_of(u.is_admin), now), secret),
        ),
        claims_at(u.id, u.email@, tier_of(u.is_admin), now).user_id == u.id,
        claims_at(u.id, u.email@, tier_of(u.is_admin), now).email == u.email@,
        claims_at(u.id, u.email@, tier_of(u.is_admin), now).permission == (if u.is_admin {
            2i8
        } else {
            1i8
        }),
        claims_at(u.id, u.email@, tier_of(u.is_admin), now).exp == now + TOKEN_LIFETIME,
{
}

/// An unknown email and a wrong password fail alike, with
/// `AuthenticationFail`.
pub proof fn lemma_login_failures_alike(u: Model, password: Seq<char>, secret: Seq<char>, now: i64)
    requires
        bcrypt_check(password, u.hashed_password@) == Some(false),
    ensures
        login_outcome(None, password, secret, now) == Err::<Seq<char>, ApiError>(
            ApiError::AuthenticationFail,
        ),
        login_outcome(Some(u), password, secret, now) == login_outcome(None, password, secret, now),
{
}

} // verus!
