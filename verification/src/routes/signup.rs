//! Creating an account.

use vstd::prelude::*;
use crate::error::ServiceError;
use crate::model::key_pair::{
    BITS, KeyPair, TEST_ENV, generate_key_pair, pkcs8_pem_modulus_bits, public_key_pem_of,
};
use crate::model::user::User;
use crate::routes::login::{bcrypt_verify_outcome, login_outcome};

verus! {

/// The credentials of a signup request.
#[derive(Clone, Debug)]
pub struct SignupCredential {
    pub name: String,
    pub password: String,
}

/// The deployment name under which passwords are hashed cheaply.
pub const DEV_ENV: &'static str = "dev";

/// The bcrypt cost used for development.
pub const DEV_COST: u32 = 4;

/// `bcrypt::DEFAULT_COST`, which the crate's source sets to 12.
#[verifier::external_body]
fn bcrypt_default_cost() -> (c: u32)
    ensures
        c == 12,
{
    bcrypt::DEFAULT_COST
}

/// The cost that bcrypt reads from the hash text `hash` (its second
/// `$`-separated field); `None` when the text is not a well-formed hash.
pub uninterp spec fn bcrypt_hash_cost(hash: Seq<char>) -> Option<u32>;

/// Calls `bcrypt::hash`, which draws a random salt: the hash text is not
/// named. What its source shows is claimed: the hash it returns is written
/// with the cost it was given (`$2b$<cost>$<salt><hash>`), and it verifies the
/// same password (`bcrypt::verify` recomputes with the cost and salt written
/// into it). It fails only for a cost outside 4..=31 or when the system random
/// source fails.
#[verifier::external_body]
fn bcrypt_hash(password: &str, cost: u32) -> (r: Result<String, bcrypt::BcryptError>)
    ensures
        r matches Ok(h) ==> bcrypt_verify_outcome(password@, h@) == Some(true)
            && bcrypt_hash_cost(h@) == Some(cost),
{
    bcrypt::hash(password, cost)
}

/// Is the deployment `env` the given one?
pub open spec fn env_is(env: Option<&str>, name: Seq<char>) -> bool {
    env matches Some(e) && e@ == name
}

/// The bcrypt cost: 4 in development, bcrypt's default of 12 otherwise.
pub open spec fn cost_for(env: Option<&str>) -> u32 {
    if env_is(env, DEV_ENV@) {
        DEV_COST
    } else {
        12
    }
}

/// The bcrypt cost of [`cost_for`].
pub fn password_cost(env: Option<&str>) -> (c: u32)
    ensures
        c == cost_for(env),
{
    if let Some(e) = env {
        if String::from_str(e) == String::from_str(DEV_ENV) {
            return DEV_COST;
        }
    }
    bcrypt_default_cost()
}

/// A bcrypt hash of `password` at the cost of [`cost_for`]; it verifies
/// `password`. A failure of hashing is `InternalServerError`.
pub fn hash_password(password: &str, env: Option<&str>) -> (r: Result<String, ServiceError>)
    ensures
        r matches Ok(h) ==> bcrypt_verify_outcome(password@, h@) == Some(true)
            && bcrypt_hash_cost(h@) == Some(cost_for(env)),
        r matches Err(e) ==> e is InternalServerError,
{
    let cost = password_cost(env);
    match bcrypt_hash(password, cost) {
        Ok(h) => Ok(h),
        Err(_) => Err(ServiceError::InternalServerError),
    }
}

/// Is `u` the new local account for `credential`: its name, a hash that
/// verifies its password, and empty profile fields?
pub open spec fn is_new_account(u: User, credential: SignupCredential) -> bool {
    &&& u.name@ == credential.name@
    &&& u.password_hash matches Some(h) && bcrypt_verify_outcome(credential.password@, h@) == Some(true)
    &&& u.display_name@ == Seq::<char>::empty()
    &&& u.summary@ == Seq::<char>::empty()
    &&& u.avatar_url@ == Seq::<char>::empty()
}

/// The account to create for `credential`, or `NameAlreadyTaken` when an
/// account of that name exists (`name_taken`).
pub fn signup_user(name_taken: bool, credential: &SignupCredential, env: Option<&str>) -> (r:
    Result<User, ServiceError>)
    ensures
        name_taken ==> (r matches Err(e) && e is NameAlreadyTaken),
        !name_taken ==> match r {
            Ok(u) => is_new_account(u, *credential) && (u.password_hash matches Some(h)
                && bcrypt_hash_cost(h@) == Some(cost_for(env))),
            Err(e) => e is InternalServerError,
        },
{
    if name_taken {
        return Err(ServiceError::NameAlreadyTaken);
    }
    let password_hash = hash_password(credential.password.as_str(), env)?;
    Ok(User {
        name: credential.name.clone(),
        password_hash: Some(password_hash),
        display_name: String::new(),
        summary: String::new(),
        avatar_url: String::new(),
    })
}

/// The key pair of the new account `user_name` (see [`generate_key_pair`]).
pub fn signup_key_pair(user_name: &str, env: Option<&str>) -> (r: Result<KeyPair, ServiceError>)
    ensures
        r matches Ok(k) ==> k.user_name@ == user_name@,
        env_is(env, TEST_ENV@) ==> (r matches Ok(k) && k.private_key@ == Seq::<char>::empty()
            && k.public_key@ == Seq::<char>::empty()),
        !env_is(env, TEST_ENV@) ==> (r matches Ok(k) ==> pkcs8_pem_modulus_bits(k.private_key@)
            == Some(BITS as nat) && public_key_pem_of(k.private_key@) == Some(k.public_key@)),
        r matches Err(e) ==> e is KeyError,
        r is Ok,
{
    let (private_key, public_key) = generate_key_pair(env)?;
    Ok(KeyPair { user_name: String::from_str(user_name), private_key, public_key })
}

/// A new account logs in with the password it signed up with: the login
/// stores its name in the session.
pub proof fn lemma_signed_up_user_can_log_in(u: User, credential: SignupCredential)
    requires
        is_new_account(u, credential),
    ensures
        login_outcome(Ok(u), credential.password@) == Ok::<Seq<char>, ServiceError>(
            credential.name@,
        ),
{
}

} // verus!
