//! Logging in with a name and a password.

use vstd::prelude::*;
use crate::error::ServiceError;
use crate::model::user::User;

verus! {

/// The credentials of a login request.
#[derive(Clone, Debug)]
pub struct LoginCredential {
    pub name: String,
    pub password: String,
}

#[verifier::external_type_specification]
#[verifier::external_body]
pub struct ExBcryptError(bcrypt::BcryptError);

/// Whether `password` matches the bcrypt hash text `hash`: `Some(b)` when the
/// hash text is well-formed, `None` when it is not.
pub uninterp spec fn bcrypt_verify_outcome(password: Seq<char>, hash: Seq<char>) -> Option<bool>;

/// Calls `bcrypt::verify`, which recomputes the hash of `password` with the
/// cost and salt read from `hash` and compares; its outcome is named
/// [`bcrypt_verify_outcome`].
#[verifier::external_body]
fn bcrypt_verify(password: &str, hash: &str) -> (r: Result<bool, bcrypt::BcryptError>)
    ensures
        match r {
            Ok(b) => bcrypt_verify_outcome(password@, hash@) == Some(b),
            Err(_) => bcrypt_verify_outcome(password@, hash@) is None,
        },
{
    bcrypt::verify(password, hash)
}

/// The outcome of checking `password` against `password_hash`: a malformed
/// hash is `InternalServerError`, a mismatch is `WrongCredential`.
pub open spec fn password_check(password: Seq<char>, password_hash: Seq<char>) -> Result<(), ServiceError> {
    match bcrypt_verify_outcome(password, password_hash) {
        Some(true) => Ok(()),
        Some(false) => Err(ServiceError::WrongCredential),
        None => Err(ServiceError::InternalServerError),
    }
}

/// Checks `password` against the bcrypt hash `password_hash`.
pub fn verify_password(password: &str, password_hash: &str) -> (r: Result<(), ServiceError>)
    ensures
        r == password_check(password@, password_hash@),
{
    match bcrypt_verify(password, password_hash) {
        Ok(true) => Ok(()),
        Ok(false) => Err(ServiceError::WrongCredential),
        Err(_) => Err(ServiceError::InternalServerError),
    }
}

/// The outcome of a login given what the lookup of the account returned:
/// the name to store in the session, or why the login fails. An unknown
/// name, like an account without a password (a remote one), is refused with
/// `WrongCredential` (401), as a wrong password is.
pub open spec fn login_outcome(lookup: Result<User, ServiceError>, password: Seq<char>) -> Result<Seq<char>, ServiceError> {
    match lookup {
        Err(_) => Err(ServiceError::WrongCredential),
        Ok(user) => match user.password_hash {
            None => Err(ServiceError::WrongCredential),
            Some(h) => match password_check(password, h@) {
                Ok(()) => Ok(user.name@),
                Err(e) => Err(e),
            },
        },
    }
}

/// Decides a login from what the lookup of the account returned.
pub fn login_decision(lookup: Result<User, ServiceError>, password: &str) -> (r: Result<
    String,
    ServiceError,
>)
    ensures
        match r {
            Ok(name) => login_outcome(lookup, password@) == Ok::<Seq<char>, ServiceError>(name@),
            Err(e) => login_outcome(lookup, password@) == Err::<Seq<char>, ServiceError>(e),
        },
        (lookup matches Ok(u) && u.password_hash matches Some(h) && bcrypt_verify_outcome(
            password@,
            h@,
        ) == Some(true)) ==> (r matches Ok(name) && name@ == lookup->Ok_0.name@),
        r is Ok ==> (lookup matches Ok(u) && u.password_hash matches Some(h)
            && bcrypt_verify_outcome(password@, h@) == Some(true) && r->Ok_0@ == u.name@),
{
    let user = match lookup {
        Ok(user) => user,
        Err(_) => return Err(ServiceError::WrongCredential),
    };
    match &user.password_hash {
        None => Err(ServiceError::WrongCredential),
        Some(h) => {
            verify_password(password, h.as_str())?;
            Ok(user.name)
        },
    }
}

/// Logging in depends only on whether the password matches the account's
/// hash: any account with a hash `h` that `password` verifies against logs in
/// under its own name, whatever its other fields hold; an unknown account, one
/// without a password and a password that does not match are all refused
/// with `WrongCredential`; a hash that bcrypt cannot read is an internal error.
pub proof fn lemma_login_depends_on_password_only(
    lookup: Result<User, ServiceError>,
    password: Seq<char>,
)
    ensures
        (lookup matches Ok(u) && u.password_hash matches Some(h) && bcrypt_verify_outcome(
            password,
            h@,
        ) == Some(true)) ==> login_outcome(lookup, password) == Ok::<Seq<char>, ServiceError>(
            lookup->Ok_0.name@,
        ),
        lookup is Err ==> (login_outcome(lookup, password) matches Err(e) && e is WrongCredential),
        (lookup matches Ok(u) && u.password_hash is None) ==> (login_outcome(lookup, password) matches Err(e)
            && e is WrongCredential),
        (lookup matches Ok(u) && u.password_hash matches Some(h) && bcrypt_verify_outcome(
            password,
            h@,
        ) == Some(false)) ==> (login_outcome(lookup, password) matches Err(e) && e is WrongCredential),
        (lookup matches Ok(u) && u.password_hash matches Some(h) && bcrypt_verify_outcome(
            password,
            h@,
        ) is None) ==> (login_outcome(lookup, password) matches Err(e) && e is InternalServerError),
        login_outcome(lookup, password) matches Ok(name) ==> (lookup matches Ok(u) && name == u.name@),
{
}

} // verus!
