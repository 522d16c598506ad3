//! Follow relations between accounts.

use vstd::prelude::*;

verus! {

/// `follow_from_name` follows `follow_to_name`.
#[derive(Clone, Debug)]
pub struct Follow {
    pub follow_from_name: String,
    pub follow_to_name: String,
}

} // verus!
