//! The public view of a local account: its profile, or its actor document
//! when an ActivityPub client asks.

use vstd::prelude::*;
use crate::text::{contains_str, contains_text};

verus! {

/// The JSON-LD media type whose presence in `Accept` selects the actor document.
pub const ACTIVITY_JSON_MEDIA_TYPE: &'static str = "application/ld+json";

/// The ActivityStreams JSON-LD context.
pub const ACTIVITY_STREAMS_CONTEXT: &'static str = "https://www.w3.org/ns/activitystreams";

/// The security vocabulary context.
pub const SECURITY_CONTEXT: &'static str = "https://w3id.org/security/v1";

/// The icon shown for every local actor.
pub const ACTOR_ICON_URL: &'static str = "https://blog.ikanago.dev/_next/image?url=%2Fblog_icon.png&w=828&q=75";

/// Does the `Accept` header ask for the actor document?
pub fn wants_activity_json(accept: &str) -> (r: bool)
    ensures
        r == contains_text(accept@, ACTIVITY_JSON_MEDIA_TYPE@),
{
    contains_str(accept, ACTIVITY_JSON_MEDIA_TYPE)
}

/// The URL of the local account `user_name` on `host_name`: its actor id.
pub open spec fn actor_url(host_name: Seq<char>, user_name: Seq<char>) -> Seq<char> {
    "https://"@ + host_name + "/api/users/"@ + user_name
}

/// Builds [`actor_url`].
pub fn local_actor_url(host_name: &str, user_name: &str) -> (u: String)
    ensures
        u@ == actor_url(host_name@, user_name@),
{
    let mut u = String::from_str("https://");
    u.append(host_name);
    u.append("/api/users/");
    u.append(user_name);
    u
}

/// The icon of an actor document.
#[derive(Clone, Debug)]
pub struct ActorIcon {
    pub type_: String,
    pub url: String,
    pub name: String,
}

/// The public key of an actor document.
#[derive(Clone, Debug)]
pub struct ActorPublicKey {
    pub id: String,
    pub type_: String,
    pub owner: String,
    pub public_key_pem: String,
}

/// An actor document of type `Person`. `url` and `discoverable` are left out
/// of the document when absent.
#[derive(Clone, Debug)]
pub struct ActorDocument {
    pub context: Vec<String>,
    pub type_: String,
    pub id: String,
    pub url: Option<String>,
    pub inbox: String,
    pub preferred_username: String,
    pub name: String,
    pub discoverable: Option<bool>,
    pub icon: ActorIcon,
    pub public_key: ActorPublicKey,
}

/// Is `d` the `Person` document of `name` whose id is `id`, with inbox
/// `<id>/inbox`, key id `<id>#main-key` owned by `id`, and the common icon?
pub open spec fn is_person_document(
    d: ActorDocument,
    id: Seq<char>,
    name: Seq<char>,
    public_key_pem: Seq<char>,
) -> bool {
    &&& d.context.deep_view() == seq![ACTIVITY_STREAMS_CONTEXT@, SECURITY_CONTEXT@]
    &&& d.type_@ == "Person"@
    &&& d.id@ == id
    &&& d.inbox@ == id + "/inbox"@
    &&& d.preferred_username@ == name
    &&& d.name@ == name
    &&& d.icon.type_@ == "Image"@
    &&& d.icon.url@ == ACTOR_ICON_URL@
    &&& d.icon.name@ == Seq::<char>::empty()
    &&& d.public_key.id@ == id + "#main-key"@
    &&& d.public_key.type_@ == "Key"@
    &&& d.public_key.owner@ == id
    &&& d.public_key.public_key_pem@ == public_key_pem
}

/// The `Person` document with the given id (see [`is_person_document`]);
/// `url` and `discoverable` are set when `listed`.
pub fn person_document(id: &str, name: &str, public_key_pem: &str, listed: bool) -> (d:
    ActorDocument)
    ensures
        is_person_document(d, id@, name@, public_key_pem@),
        listed ==> (d.url matches Some(u) && u@ == id@),
        listed ==> d.discoverable == Some(true),
        !listed ==> d.url is None && d.discoverable is None,
{
    let mut context: Vec<String> = Vec::new();
    context.push(String::from_str(ACTIVITY_STREAMS_CONTEXT));
    context.push(String::from_str(SECURITY_CONTEXT));
    assert(context.deep_view() =~= seq![ACTIVITY_STREAMS_CONTEXT@, SECURITY_CONTEXT@]);
    ActorDocument {
        context,
        type_: String::from_str("Person"),
        id: String::from_str(id),
        url: if listed { Some(String::from_str(id)) } else { None },
        inbox: String::from_str(id).concat("/inbox"),
        preferred_username: String::from_str(name),
        name: String::from_str(name),
        discoverable: if listed { Some(true) } else { None },
        icon: ActorIcon {
            type_: String::from_str("Image"),
            url: String::from_str(ACTOR_ICON_URL),
            name: String::new(),
        },
        public_key: ActorPublicKey {
            id: String::from_str(id).concat("#main-key"),
            type_: String::from_str("Key"),
            owner: String::from_str(id),
            public_key_pem: String::from_str(public_key_pem),
        },
    }
}

/// The actor document served for the local account `name`: a listed
/// `Person` whose id and url are [`actor_url`].
pub fn user_info_activity_json(host_name: &str, name: &str, public_key_pem: &str) -> (d:
    ActorDocument)
    ensures
        is_person_document(d, actor_url(host_name@, name@), name@, public_key_pem@),
        d.url matches Some(u) && u@ == actor_url(host_name@, name@),
        d.discoverable == Some(true),
{
    let id = local_actor_url(host_name, name);
    person_document(id.as_str(), name, public_key_pem, true)
}

} // verus!
