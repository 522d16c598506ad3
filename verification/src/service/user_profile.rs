//! Reading and changing profiles.

use vstd::prelude::*;
use crate::model::user::{User, parse_user_and_host_name, splits_user_and_host};

verus! {

/// New values of the editable profile fields.
#[derive(Clone, Debug)]
pub struct UserProfileUpdate {
    pub display_name: String,
    pub summary: String,
    pub avatar_url: String,
}

/// Where a profile is read from.
#[derive(Clone, Debug)]
pub enum ProfileSource {
    /// A remote account, resolved through WebFinger on its host.
    Remote { user_name: String, host_name: String },
    /// A local account, read from the database.
    Local { user_name: String },
}

/// A name with an `'@'` is a remote `user@host`; any other is local.
pub fn user_profile_source(user_name: &str) -> (r: ProfileSource)
    ensures
        match r {
            ProfileSource::Remote { user_name: u, host_name: h } => splits_user_and_host(
                user_name@,
                u@,
                h@,
            ),
            ProfileSource::Local { user_name: u } => !user_name@.contains('@') && u@
                == user_name@,
        },
{
    match parse_user_and_host_name(user_name) {
        Some((u, h)) => ProfileSource::Remote { user_name: u, host_name: h },
        None => ProfileSource::Local { user_name: String::from_str(user_name) },
    }
}

/// `user` with its display name, summary and avatar replaced by the update;
/// its name and password hash are kept.
pub fn apply_profile_update(user: User, update: UserProfileUpdate) -> (u: User)
    ensures
        u == (User {
            display_name: update.display_name,
            summary: update.summary,
            avatar_url: update.avatar_url,
            ..user
        }),
{
    User {
        display_name: update.display_name,
        summary: update.summary,
        avatar_url: update.avatar_url,
        ..user
    }
}

} // verus!
