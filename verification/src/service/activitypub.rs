//! The `Follow` activity sent to a remote actor.

use vstd::prelude::*;
use crate::routes::users::{
    ACTIVITY_STREAMS_CONTEXT, SECURITY_CONTEXT, ActorDocument, actor_url, is_person_document,
    local_actor_url,
};

verus! {

/// A `Follow` activity.
#[derive(Clone, Debug)]
pub struct FollowActivity {
    pub context: Vec<String>,
    pub type_: String,
    pub actor: String,
    pub object: String,
}

/// Is `a` the `Follow` of the actor `object_id` by the local account
/// `follow_from_user_name` of `host_name`?
pub open spec fn is_follow_activity(
    a: FollowActivity,
    host_name: Seq<char>,
    follow_from_user_name: Seq<char>,
    object_id: Seq<char>,
) -> bool {
    &&& a.context.deep_view() == seq![ACTIVITY_STREAMS_CONTEXT@, SECURITY_CONTEXT@]
    &&& a.type_@ == "Follow"@
    &&& a.actor@ == actor_url(host_name, follow_from_user_name)
    &&& a.object@ == object_id
}

/// The `Follow` that the local `follow_from_user_name` sends to the remote
/// actor whose id is `object_id`.
pub fn follow_activity(host_name: &str, follow_from_user_name: &str, object_id: &str) -> (a:
    FollowActivity)
    ensures
        is_follow_activity(a, host_name@, follow_from_user_name@, object_id@),
{
    let mut context: Vec<String> = Vec::new();
    context.push(String::from_str(ACTIVITY_STREAMS_CONTEXT));
    context.push(String::from_str(SECURITY_CONTEXT));
    assert(context.deep_view() =~= seq![ACTIVITY_STREAMS_CONTEXT@, SECURITY_CONTEXT@]);
    FollowActivity {
        context,
        type_: String::from_str("Follow"),
        actor: local_actor_url(host_name, follow_from_user_name),
        object: String::from_str(object_id),
    }
}

/// The actor of a `Follow` this server sends is the id of the actor document
/// it serves for the follower, so the remote side can fetch the follower.
pub proof fn lemma_follow_actor_is_served_actor(
    a: FollowActivity,
    d: ActorDocument,
    host_name: Seq<char>,
    follow_from_user_name: Seq<char>,
    object_id: Seq<char>,
    public_key_pem: Seq<char>,
)
    requires
        is_follow_activity(a, host_name, follow_from_user_name, object_id),
        is_person_document(
            d,
            actor_url(host_name, follow_from_user_name),
            follow_from_user_name,
            public_key_pem,
        ),
    ensures
        a.actor@ == d.id@,
{
}

} // verus!
