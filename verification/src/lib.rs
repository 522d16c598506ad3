//! Domain logic of a small ActivityPub server: account records, profile
//! views, WebFinger and NodeInfo documents, actor documents, activity payloads,
//! HTTP signature headers and the decisions taken by each request handler.

pub mod error;
pub mod model;
pub mod routes;
pub mod service;
pub mod text;

use vstd::prelude::*;

verus! {

/// The session entry under which the logged-in user's name is stored.
pub const SESSION_KEY: &'static str = "user_name";

} // verus!
