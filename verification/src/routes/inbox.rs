//! The inbox of a local account: follow requests are answered with `Accept`.

use vstd::prelude::*;
use crate::routes::users::ACTIVITY_STREAMS_CONTEXT;

verus! {

/// An activity delivered to an inbox.
#[derive(Clone, Debug)]
pub struct InboxBody {
    pub id: String,
    pub type_: String,
    pub actor: String,
    pub object: String,
}

/// The activity being accepted, echoed back.
#[derive(Clone, Debug)]
pub struct AcceptedActivity {
    pub id: String,
    pub type_: String,
    pub actor: String,
    pub object: String,
}

/// An `Accept` activity.
#[derive(Clone, Debug)]
pub struct AcceptActivity {
    pub context: String,
    pub id: String,
    pub type_: String,
    pub actor: String,
    pub object: AcceptedActivity,
}

/// The answer to a delivered activity: what to post, and where.
#[derive(Clone, Debug)]
pub struct InboxReply {
    pub payload: AcceptActivity,
    pub target_inbox: String,
}

/// Is `a` the `Accept` of `body` sent from `host_name`?
pub open spec fn is_accept_of(a: AcceptActivity, host_name: Seq<char>, body: InboxBody) -> bool {
    &&& a.context@ == ACTIVITY_STREAMS_CONTEXT@
    &&& a.id@ == "https://"@ + host_name + "/users/test/accept/1"@
    &&& a.type_@ == "Accept"@
    &&& a.actor == body.object
    &&& a.object.id == body.id
    &&& a.object.type_ == body.type_
    &&& a.object.actor == body.actor
    &&& a.object.object == body.object
}

/// The reply to a delivered activity: a `Follow` is accepted by posting an
/// `Accept` to `<actor>/inbox`; any other activity gets no reply.
pub fn inbox_reply(host_name: &str, body: &InboxBody) -> (r: Option<InboxReply>)
    ensures
        r is Some <==> body.type_@ == "Follow"@,
        r matches Some(reply) ==> is_accept_of(reply.payload, host_name@, *body)
            && reply.target_inbox@ == body.actor@ + "/inbox"@,
{
    if body.type_ != String::from_str("Follow") {
        return None;
    }
    let mut id = String::from_str("https://");
    id.append(host_name);
    id.append("/users/test/accept/1");
    let payload = AcceptActivity {
        context: String::from_str(ACTIVITY_STREAMS_CONTEXT),
        id,
        type_: String::from_str("Accept"),
        actor: body.object.clone(),
        object: AcceptedActivity {
            id: body.id.clone(),
            type_: body.type_.clone(),
            actor: body.actor.clone(),
            object: body.object.clone(),
        },
    };
    let target_inbox = body.actor.clone().concat("/inbox");
    Some(InboxReply { payload, target_inbox })
}

} // verus!
