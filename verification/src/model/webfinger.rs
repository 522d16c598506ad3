//! WebFinger documents and the discovery of an actor's URL through them.

use vstd::prelude::*;
use crate::error::ServiceError;
use crate::model::key_pair::option_view;

verus! {

/// A WebFinger answer: the account it describes and its links.
#[derive(Clone, Debug)]
pub struct Webfinger {
    pub subject: String,
    pub links: Vec<WebfingerLink>,
}

/// One link of a WebFinger answer.
#[derive(Clone, Debug)]
pub struct WebfingerLink {
    pub href: Option<String>,
    pub rel: String,
    pub type_: Option<String>,
}

/// Fetches WebFinger answers from remote servers over HTTPS.
#[derive(Clone)]
pub struct RemoteWebfingerRepositoryImpl;

/// The URL that asks `host_name` about the account `user_name@host_name`.
pub open spec fn webfinger_url(user_name: Seq<char>, host_name: Seq<char>) -> Seq<char> {
    "https://"@ + host_name + "/.well-known/webfinger?resource=acct:"@ + user_name + "@"@
        + host_name
}

/// Builds [`webfinger_url`].
pub fn webfinger_request_url(user_name: &str, host_name: &str) -> (u: String)
    ensures
        u@ == webfinger_url(user_name@, host_name@),
{
    let mut u = String::from_str("https://");
    u.append(host_name);
    u.append("/.well-known/webfinger?resource=acct:");
    u.append(user_name);
    u.append("@");
    u.append(host_name);
    u
}

/// The index of the first link at or after `from` whose relation is `self`.
pub open spec fn self_link_index_from(links: Seq<WebfingerLink>, from: int) -> Option<int>
    decreases links.len() - from,
{
    if from < 0 || from >= links.len() {
        None
    } else if links[from].rel@ == "self"@ {
        Some(from)
    } else {
        self_link_index_from(links, from + 1)
    }
}

/// The target of the first `self` link, if there is such a link and it has a target.
pub open spec fn self_href(links: Seq<WebfingerLink>) -> Option<Seq<char>> {
    match self_link_index_from(links, 0) {
        Some(i) => option_view(links[i].href),
        None => None,
    }
}

/// The target of the first link whose relation is `self`: the actor's URL.
/// `InternalServerError` when there is no such link or it has no target.
pub fn select_self_href(webfinger: &Webfinger) -> (r: Result<String, ServiceError>)
    ensures
        match r {
            Ok(h) => self_href(webfinger.links@) == Some(h@),
            Err(e) => self_href(webfinger.links@) is None && e is InternalServerError,
        },
{
    let links = &webfinger.links;
    let self_rel = String::from_str("self");
    let mut i: usize = 0;
    while i < links.len()
        invariant
            0 <= i <= links@.len(),
            self_rel@ == "self"@,
            links@ == webfinger.links@,
            self_link_index_from(links@, 0) == self_link_index_from(links@, i as int),
        decreases links@.len() - i,
    {
        if links[i].rel == self_rel {
            assert(self_link_index_from(links@, i as int) == Some(i as int));
            return match &links[i].href {
                Some(h) => {
                    let h2 = h.clone();
                    assert(option_view(links@[i as int].href) == Some(h2@));
                    Ok(h2)
                },
                None => Err(ServiceError::InternalServerError),
            };
        }
        i = i + 1;
    }
    Err(ServiceError::InternalServerError)
}

} // verus!
