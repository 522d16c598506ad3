//! The actor document of a remote person.

use vstd::prelude::*;

verus! {

/// A remote person's actor document, reduced to the fields the server reads.
#[derive(Clone, Debug, PartialEq, Eq)]
pub struct ApPerson {
    pub id: String,
    pub type_: String,
    pub preferred_username: String,
    pub name: Option<String>,
    pub summary: Option<String>,
    pub inbox: String,
}

/// Fetches remote actor documents over HTTP.
#[derive(Clone)]
pub struct ApPersonRepositoryImpl;

} // verus!
