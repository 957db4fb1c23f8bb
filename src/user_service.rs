use crate::error::ApiError;
use crate::user::{response_of, updated, Model, Timestamp, UpdateUser, UserResponse, UserUpdateCommand};
use vstd::prelude::*;

verus! {

/// The users as clients see them, in the repository's order.
pub fn get_user_list(users: Vec<Model>) -> (r: Vec<UserResponse>)
    ensures
        r@.len() == users@.len(),
        forall|i: int| 0 <= i < users@.len() ==> #[trigger] r@[i] == response_of(users@[i]),
{
    let ghost all = users@;
    let mut rest = users;
    let mut reversed: Vec<UserResponse> = Vec::new();
    while rest.len() > 0
        invariant
            rest@.len() + reversed@.len() == all.len(),
            rest@ == all.take(rest@.len() as int),
            forall|j: int|
                0 <= j < reversed@.len() ==> #[trigger] reversed@[j] == response_of(
                    all[all.len() - 1 - j],
                ),
        decreases rest@.len(),
    {
        let u = rest.pop().unwrap();
        assert(rest@ =~= all.take(rest@.len() as int));
        reversed.push(UserResponse::from(u));
    }
    let mut out: Vec<UserResponse> = Vec::new();
    while reversed.len() > 0
        invariant
            reversed@.len() + out@.len() == all.len(),
            forall|j: int|
                0 <= j < reversed@.len() ==> #[trigger] reversed@[j] == response_of(
                    all[all.len() - 1 - j],
                ),
            forall|j: int| 0 <= j < out@.len() ==> #[trigger] out@[j] == response_of(all[j]),
        decreases reversed@.len(),
    {
        let r = reversed.pop().unwrap();
        out.push(r);
    }
    out
}

/// The user that the repository found for an id, as clients see it.
pub fn get_user(found: Option<Model>) -> (r: Result<UserResponse, ApiError>)
    ensures
        match found {
            None => r == Err::<UserResponse, ApiError>(ApiError::UserNotFound),
            Some(u) => r == Ok::<UserResponse, ApiError>(response_of(u)),
        },
{
    match found {
        Some(u) => Ok(UserResponse::from(u)),
        None => Err(ApiError::UserNotFound),
    }
}

/// The record to store when `data` is applied at `now` to the user that the
/// repository found for an id.
pub fn update_user(found: Option<Model>, data: UpdateUser, now: Timestamp) -> (r: Result<
    Model,
    ApiError,
>)
    ensures
        match found {
            None => r == Err::<Model, ApiError>(ApiError::UserNotFound),
            Some(u) => r == Ok::<Model, ApiError>(
                updated(u, UserUpdateCommand { name: data.name, email: data.email }, now),
            ),
        },
{
    match found {
        Some(u) => {
            let command = UserUpdateCommand::from(data);
            Ok(command.apply(u, now))
        },
        None => Err(ApiError::UserNotFound),
    }
}

} // verus!
