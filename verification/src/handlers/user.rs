//! Registration and the listing of users.

use crate::credentials::{password_fault, validate_password};
use crate::handlers::auth::{add_user, stores_user};
use crate::models::api::ApiError;
use crate::models::user::{CreateUser, User};
use vstd::prelude::*;

verus! {

/// A registration that passed every check and waits to be stored: the user,
/// and the two statements that store the user and the credential. The
/// statements must run in one transaction; a user without a credential, or a
/// credential without a user, must never be left behind.
#[derive(Debug)]
pub struct NewUser {
    pub user: User,
    pub user_insert: String,
    pub password_insert: String,
}

/// Prepares the registration of a user.
///
/// A password shorter than eight bytes or longer than sixty-four is refused
/// with that failure, and nothing is hashed or handed out for storing. Every
/// other registration yields the new user under a fresh id, with the name and
/// email as they were given, and the statements that store that user with a
/// credential that admits the password.
pub fn create_user(payload: CreateUser) -> (outcome: Result<NewUser, ApiError>)
    ensures
        match outcome {
            Ok(new_user) => {
                &&& password_fault(payload.password@).is_none()
                &&& new_user.user.name@ == payload.name@
                &&& new_user.user.email@ == payload.email@
                &&& stores_user(
                    new_user.user_insert@,
                    new_user.password_insert@,
                    new_user.user.id@,
                    payload.name@,
                    payload.email@,
                    payload.password@,
                )
            },
            Err(fault) => password_fault(payload.password@) == Some(fault),
        },
{
    match validate_password(payload.password.as_str()) {
        Err(fault) => Err(fault),
        Ok(_) => {
            let (user_insert, password_insert, id) = add_user(
                &payload.name,
                &payload.password,
                &payload.email,
            );
            Ok(
                NewUser {
                    user: User { id, name: payload.name, email: payload.email },
                    user_insert,
                    password_insert,
                },
            )
        },
    }
}

/// Ends a registration once the storage has answered: the user, if both
/// statements were committed; the failure of a registration that was not
/// stored, if they were rolled back.
pub fn user_created(new_user: NewUser, stored: bool) -> (outcome: Result<User, ApiError>)
    ensures
        match outcome {
            Ok(user) => stored && user == new_user.user,
            Err(fault) => !stored && fault == ApiError::UserNotStored,
        },
{
    if stored {
        Ok(new_user.user)
    } else {
        Err(ApiError::UserNotStored)
    }
}

/// Answers a listing of users: the rows, if the storage gave any; the failure
/// of a listing that could not be read, if it did not.
pub fn get_users(rows: Option<Vec<User>>) -> (outcome: Result<Vec<User>, ApiError>)
    ensures
        match outcome {
            Ok(users) => rows == Some(users),
            Err(fault) => rows.is_none() && fault == ApiError::UsersNotRead,
        },
{
    match rows {
        Some(users) => Ok(users),
        None => Err(ApiError::UsersNotRead),
    }
}

/// The answer of the route that shows one user.
pub fn get_user() -> (answer: &'static str)
    ensures
        answer@ == "get user"@,
{
    "get user"
}

/// The answer of the route that deletes one user.
pub fn delete_user() -> (answer: &'static str)
    ensures
        answer@ == "update user"@,
{
    "update user"
}

} // verus!
