//! Posts written by accounts.

use vstd::prelude::*;

verus! {

/// A post; `published_at` counts microseconds since the Unix epoch (UTC).
#[derive(Clone, Debug)]
pub struct Post {
    pub id: String,
    pub user_id: String,
    pub content: String,
    pub published_at: i64,
}

} // verus!
