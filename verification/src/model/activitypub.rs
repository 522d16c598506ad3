//! Remote ActivityPub actors as fetched from their servers.

use vstd::prelude::*;

verus! {

/// A remote actor document, reduced to the fields the server reads.
#[derive(Clone, Debug, PartialEq, Eq)]
pub struct Person {
    pub id: String,
    pub type_: String,
    pub preferred_username: String,
    pub name: Option<String>,
    pub summary: Option<String>,
    pub inbox: String,
}

/// Fetches and posts ActivityPub objects over HTTP.
pub struct ActivityPubRequestRepositoryImpl;

/// The `Accept` header sent when fetching an ActivityPub object.
pub const ACTIVITY_STREAMS_ACCEPT: &'static str = "application/ld+json; profile=\"https://www.w3.org/ns/activitystreams\"; charset=utf-8";

} // verus!
