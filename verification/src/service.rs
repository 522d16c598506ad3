//! Services shared by several routes: following remote actors, adopting
//! remote accounts and reading or changing profiles.

pub mod activitypub;
pub mod remote_user;
pub mod user_profile;
