//! The public profile of an account, local or remote.

use vstd::prelude::*;
use crate::model::activitypub::Person;
use crate::model::ap_person::ApPerson;
use crate::model::user::User;

verus! {

/// What anyone may see of an account.
#[derive(Clone, Debug, PartialEq, Eq)]
pub struct UserProfile {
    pub name: String,
    pub display_name: String,
    pub summary: String,
    pub avatar_url: String,
}

/// The text of an optional field, empty when it is absent.
pub open spec fn text_or_empty(t: Option<String>) -> Seq<char> {
    match t {
        Some(s) => s@,
        None => Seq::empty(),
    }
}

/// The profile of a local account: its four public fields, unchanged.
pub open spec fn profile_of_user(user: User) -> UserProfile {
    UserProfile {
        name: user.name,
        display_name: user.display_name,
        summary: user.summary,
        avatar_url: user.avatar_url,
    }
}

/// The text of an optional field, empty when it is absent.
pub fn unwrap_or_empty(t: Option<String>) -> (s: String)
    ensures
        s@ == text_or_empty(t),
{
    match t {
        Some(s) => s,
        None => String::new(),
    }
}

impl From<User> for UserProfile {
    fn from(user: User) -> (profile: Self) {
        UserProfile {
            name: user.name,
            display_name: user.display_name,
            summary: user.summary,
            avatar_url: user.avatar_url,
        }
    }
}

impl vstd::std_specs::convert::FromSpecImpl<User> for UserProfile {
    open spec fn obeys_from_spec() -> bool {
        true
    }

    open spec fn from_spec(user: User) -> UserProfile {
        profile_of_user(user)
    }
}

impl From<ApPerson> for UserProfile {
    /// The profile of a remote person: its preferred user name, its name and
    /// summary (empty when absent) and no avatar.
    fn from(person: ApPerson) -> (profile: Self)
        ensures
            is_remote_profile(profile, person.preferred_username, person.name, person.summary),
    {
        UserProfile::from_ap_person(person)
    }
}

/// The fields of a profile converted from a remote person are fixed only up to
/// their text (see [`UserProfile::from_ap_person`]), so no `String` value is
/// promised here.
impl vstd::std_specs::convert::FromSpecImpl<ApPerson> for UserProfile {
    open spec fn obeys_from_spec() -> bool {
        false
    }

    open spec fn from_spec(person: ApPerson) -> UserProfile {
        vstd::pervasive::arbitrary()
    }
}

/// Is `p` the profile of the remote person with these fields?
pub open spec fn is_remote_profile(
    p: UserProfile,
    preferred_username: String,
    name: Option<String>,
    summary: Option<String>,
) -> bool {
    &&& p.name@ == preferred_username@
    &&& p.display_name@ == text_or_empty(name)
    &&& p.summary@ == text_or_empty(summary)
    &&& p.avatar_url@ == Seq::<char>::empty()
}

impl UserProfile {
    /// The profile of a remote actor, as for [`ApPerson`].
    pub fn from_person(person: Person) -> (profile: UserProfile)
        ensures
            is_remote_profile(profile, person.preferred_username, person.name, person.summary),
    {
        UserProfile {
            name: person.preferred_username,
            display_name: unwrap_or_empty(person.name),
            summary: unwrap_or_empty(person.summary),
            avatar_url: String::new(),
        }
    }

    /// The profile of a remote person: its preferred user name, its name and
    /// summary (empty when absent) and no avatar.
    pub fn from_ap_person(person: ApPerson) -> (profile: UserProfile)
        ensures
            is_remote_profile(profile, person.preferred_username, person.name, person.summary),
    {
        UserProfile {
            name: person.preferred_username,
            display_name: unwrap_or_empty(person.name),
            summary: unwrap_or_empty(person.summary),
            avatar_url: String::new(),
        }
    }
}

} // verus!
