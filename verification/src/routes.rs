//! The decisions of each HTTP route, apart from the I/O around them.

pub mod follow;
pub mod home;
pub mod host_meta;
pub mod inbox;
pub mod login;
pub mod nodeinfo;
pub mod post;
pub mod reset_db;
pub mod signup;
pub mod user_info;
pub mod users;
pub mod webfinger;

use vstd::prelude::*;
use crate::error::ServiceError;

verus! {

/// The logged-in user from what the session store answered: a failed read is
/// `InternalServerError`, no entry is `WrongCredential`.
pub fn require_session_user(stored: Result<Option<String>, ()>) -> (r: Result<String, ServiceError>)
    ensures
        match stored {
            Err(_) => r matches Err(e) && e is InternalServerError,
            Ok(None) => r matches Err(e) && e is WrongCredential,
            Ok(Some(name)) => r == Ok::<String, ServiceError>(name),
        },
{
    match stored {
        Err(_) => Err(ServiceError::InternalServerError),
        Ok(None) => Err(ServiceError::WrongCredential),
        Ok(Some(name)) => Ok(name),
    }
}

} // verus!
