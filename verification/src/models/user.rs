//! Users and the requests that name them.

use vstd::prelude::*;

verus! {

/// The public identity of a user.
#[derive(Debug)]
pub struct User {
    pub id: String,
    pub name: String,
    pub email: String,
}

/// A request to register.
#[derive(Debug)]
pub struct CreateUser {
    pub name: String,
    pub email: String,
    pub password: String,
}

/// A request to log in. The email is the user name.
#[derive(Debug)]
pub struct LoginUser {
    pub email: String,
    pub password: String,
}

} // verus!
