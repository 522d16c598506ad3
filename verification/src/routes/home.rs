//! The landing view of a logged-in user.

use vstd::prelude::*;

verus! {

/// The name of the logged-in user.
#[derive(Clone, Debug)]
pub struct UserInfoResponse {
    pub name: String,
}

} // verus!
