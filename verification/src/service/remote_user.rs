//! Remote accounts: finding their actor, and recording them locally.

use vstd::prelude::*;
use crate::model::activitypub::Person;
use crate::model::user::User;
use crate::model::user_profile::{UserProfile, is_remote_profile, profile_of_user};

verus! {

/// The local record of a remote person: the fields of its profile and no password.
pub fn remote_user_from_person(person: Person) -> (u: User)
    ensures
        u.password_hash is None,
        is_remote_profile(profile_of_user(u), person.preferred_username, person.name, person.summary),
{
    let profile = UserProfile::from_person(person);
    User {
        name: profile.name,
        password_hash: None,
        display_name: profile.display_name,
        summary: profile.summary,
        avatar_url: profile.avatar_url,
    }
}

} // verus!
