//! The account view reached under `/users/<name>`: the actor document for
//! ActivityPub clients, otherwise the logged-in user's own name.

use vstd::prelude::*;
use crate::error::ServiceError;
use crate::model::user::User;
use crate::routes::users::{is_person_document, person_document};

verus! {

/// The name of the logged-in user.
#[derive(Clone, Debug)]
pub struct UserInfoResponse {
    pub name: String,
}

/// `https://<host>/users/<name>`: the actor id used by this view.
pub open spec fn user_info_actor_url(host_name: Seq<char>, name: Seq<char>) -> Seq<char> {
    "https://"@ + host_name + "/users/"@ + name
}

/// The unlisted `Person` document of `name` whose id is [`user_info_actor_url`].
pub fn user_info_activity_json(host_name: &str, name: &str, public_key_pem: &str) -> (d:
    crate::routes::users::ActorDocument)
    ensures
        is_person_document(d, user_info_actor_url(host_name@, name@), name@, public_key_pem@),
        d.url is None && d.discoverable is None,
{
    let mut id = String::from_str("https://");
    id.append(host_name);
    id.append("/users/");
    id.append(name);
    person_document(id.as_str(), name, public_key_pem, false)
}

/// The answer for the logged-in `session_user` asking about `name`: their
/// own name, or `WrongCredential` when `name` is someone else.
pub fn user_info_for_session(name: &str, session_user: &User) -> (r: Result<
    UserInfoResponse,
    ServiceError,
>)
    ensures
        name@ == session_user.name@ ==> (r matches Ok(res) && res.name@ == name@),
        name@ != session_user.name@ ==> (r matches Err(e) && e is WrongCredential),
{
    let name = String::from_str(name);
    if name != session_user.name {
        return Err(ServiceError::WrongCredential);
    }
    Ok(UserInfoResponse { name: session_user.name.clone() })
}

} // verus!
