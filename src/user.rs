use vstd::prelude::*;

verus! {

/// A date and time in UTC: seconds since the Unix epoch and the nanoseconds
/// past that second.
#[derive(Clone, Copy, Debug, PartialEq, Eq, Structural)]
pub struct Timestamp {
    pub secs: i64,
    pub nanos: u32,
}

/// A stored user.
pub struct Model {
    pub id: i32,
    pub name: String,
    pub email: String,
    pub hashed_password: String,
    pub is_active: bool,
    pub is_admin: bool,
    pub updated_dtm: Option<Timestamp>,
    pub created_dtm: Timestamp,
}

/// Credentials sent to log in.
pub struct LoginUser {
    pub email: String,
    pub password: String,
}

/// What is sent to register.
pub struct RegisterUser {
    pub name: String,
    pub email: String,
    pub password: String,
    pub password_check: String,
}

/// A change to a user; absent fields stay as they are.
pub struct UpdateUser {
    pub name: Option<String>,
    pub email: Option<String>,
}

/// What the repository needs to create a user.
pub struct UserCreateCommand {
    pub name: String,
    pub email: String,
    pub hashed_password: String,
}

/// What the repository needs to change a user.
pub struct UserUpdateCommand {
    pub name: Option<String>,
    pub email: Option<String>,
}

/// The fields of a user record about to be inserted: the repository
/// assigns the id.
pub struct NewUser {
    pub name: String,
    pub email: String,
    pub hashed_password: String,
    pub is_active: bool,
    pub is_admin: bool,
    pub created_dtm: Timestamp,
}

/// What clients see of a user: everything but the password hash and the
/// administrator flag.
pub struct UserResponse {
    pub id: i32,
    pub name: String,
    pub email: String,
    pub is_active: bool,
    pub updated_dtm: Option<Timestamp>,
    pub created_dtm: Timestamp,
}

/// `u` as clients see it.
pub open spec fn response_of(u: Model) -> UserResponse {
    UserResponse {
        id: u.id,
        name: u.name,
        email: u.email,
        is_active: u.is_active,
        updated_dtm: u.updated_dtm,
        created_dtm: u.created_dtm,
    }
}

impl From<Model> for UserResponse {
    fn from(user: Model) -> (r: UserResponse) {
        UserResponse {
            id: user.id,
            name: user.name,
            email: user.email,
            is_active: user.is_active,
            updated_dtm: user.updated_dtm,
            created_dtm: user.created_dtm,
        }
    }
}

impl vstd::std_specs::convert::FromSpecImpl<Model> for UserResponse {
    open spec fn obeys_from_spec() -> bool {
        true
    }

    open spec fn from_spec(user: Model) -> UserResponse {
        response_of(user)
    }
}

impl From<UpdateUser> for UserUpdateCommand {
    fn from(data: UpdateUser) -> (r: UserUpdateCommand) {
        UserUpdateCommand { name: data.name, email: data.email }
    }
}

impl vstd::std_specs::convert::FromSpecImpl<UpdateUser> for UserUpdateCommand {
    open spec fn obeys_from_spec() -> bool {
        true
    }

    open spec fn from_spec(data: UpdateUser) -> UserUpdateCommand {
        UserUpdateCommand { name: data.name, email: data.email }
    }
}

/// `u` after `command`, changed at `now`.
pub open spec fn updated(u: Model, command: UserUpdateCommand, now: Timestamp) -> Model {
    Model {
        name: match command.name {
            Some(n) => n,
            None => u.name,
        },
        email: match command.email {
            Some(e) => e,
            None => u.email,
        },
        updated_dtm: Some(now),
        ..u
    }
}

impl UserUpdateCommand {
    /// Applies the change to `user`: the given fields replace the stored
    /// ones and the change time becomes `now`.
    pub fn apply(self, user: Model, now: Timestamp) -> (r: Model)
        ensures
            r == updated(user, self, now),
    {
        let mut user = user;
        match self.name {
            Some(n) => {
                user.name = n;
            },
            None => {},
        }
        match self.email {
            Some(e) => {
                user.email = e;
            },
            None => {},
        }
        user.updated_dtm = Some(now);
        user
    }
}

impl UserCreateCommand {
    /// The record to insert: active, not an administrator, created at `now`.
    pub fn into_new_user(self, now: Timestamp) -> (r: NewUser)
        ensures
            r.name == self.name,
            r.email == self.email,
            r.hashed_password == self.hashed_password,
            r.is_active,
            !r.is_admin,
            r.created_dtm == now,
    {
        NewUser {
            name: self.name,
            email: self.email,
            hashed_password: self.hashed_password,
            is_active: true,
            is_admin: false,
            created_dtm: now,
        }
    }
}

} // verus!
