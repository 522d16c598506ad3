//! Following and unfollowing accounts, local or remote, and listing follows.

use vstd::prelude::*;
use crate::error::ServiceError;
use crate::model::follow::Follow;
use crate::model::user::{User, parse_user_and_host_name, splits_user_and_host};
use crate::model::user_profile::{UserProfile, profile_of_user};

verus! {

/// Only the user named as the follower may create or remove a follow.
pub fn authorize_follow(session_user: &String, follow: &Follow) -> (r: Result<(), ServiceError>)
    ensures
        r is Ok <==> session_user@ == follow.follow_from_name@,
        r matches Err(e) ==> e is WrongCredential,
{
    if *session_user != follow.follow_from_name {
        return Err(ServiceError::WrongCredential);
    }
    Ok(())
}

/// The account to be followed: a local name, or a remote `user@host`.
#[derive(Clone, Debug)]
pub struct FollowTarget {
    pub user_name: String,
    pub host_name: String,
    pub is_remote: bool,
}

/// Is `t` what `follow_to_name` denotes: its `user@host` split when it holds an
/// `'@'`, else the whole name on no host; remote exactly when the host is non-empty.
pub open spec fn is_follow_target(follow_to_name: Seq<char>, t: FollowTarget) -> bool {
    &&& if follow_to_name.contains('@') {
        splits_user_and_host(follow_to_name, t.user_name@, t.host_name@)
    } else {
        t.user_name@ == follow_to_name && t.host_name@ == Seq::<char>::empty()
    }
    &&& t.is_remote == (t.host_name@.len() > 0)
}

/// Reads the account named by `follow_to_name`.
pub fn follow_target(follow_to_name: &str) -> (t: FollowTarget)
    ensures
        is_follow_target(follow_to_name@, t),
{
    let (user_name, host_name) = match parse_user_and_host_name(follow_to_name) {
        Some((u, h)) => (u, h),
        None => (String::from_str(follow_to_name), String::new()),
    };
    let is_remote = host_name.unicode_len() > 0;
    FollowTarget { user_name, host_name, is_remote }
}

/// A follow request that has passed the checks that need no lookup.
#[derive(Clone, Debug)]
pub struct FollowPlan {
    /// The name looked up to see whether the followed account is known here.
    pub lookup_name: String,
    pub target: FollowTarget,
    /// The follow to store.
    pub record: Follow,
}

/// Checks a follow request of `session_user`: it must name them as the
/// follower (else `WrongCredential`). The name to look up is the whole
/// `follow_to_name`; the follow stored names the target's user name only.
pub fn plan_create_follow(session_user: &String, follow: Follow) -> (r: Result<
    FollowPlan,
    ServiceError,
>)
    ensures
        r is Ok <==> session_user@ == follow.follow_from_name@,
        r matches Err(e) ==> e is WrongCredential,
        r matches Ok(p) ==> {
            &&& p.lookup_name@ == follow.follow_to_name@
            &&& is_follow_target(follow.follow_to_name@, p.target)
            &&& p.record.follow_from_name@ == follow.follow_from_name@
            &&& p.record.follow_to_name@ == p.target.user_name@
        },
{
    authorize_follow(session_user, &follow)?;
    let target = follow_target(follow.follow_to_name.as_str());
    let record = Follow {
        follow_from_name: follow.follow_from_name,
        follow_to_name: target.user_name.clone(),
    };
    Ok(FollowPlan { lookup_name: follow.follow_to_name, target, record })
}

/// A copy of `f`.
fn copy_follow(f: &Follow) -> (r: Follow)
    ensures
        r.follow_from_name@ == f.follow_from_name@,
        r.follow_to_name@ == f.follow_to_name@,
{
    Follow {
        follow_from_name: f.follow_from_name.clone(),
        follow_to_name: f.follow_to_name.clone(),
    }
}

/// What the handler of a follow request reports back after each step.
#[derive(Clone, Copy, Debug)]
pub enum FollowEvent {
    /// The request has passed [`plan_create_follow`].
    Started,
    /// The lookup of the followed account answered.
    UserLookedUp { exists: bool },
    /// The remote account has been fetched and stored.
    RemoteUserCreated,
    /// The follow has been stored.
    FollowSaved,
    /// The `Follow` activity has been delivered to the remote actor.
    RemoteFollowed,
}

/// The next thing the handler of a follow request does.
#[derive(Clone, Debug)]
pub enum FollowAction {
    /// Look the account up by this name.
    LookUpUser { name: String },
    /// Fetch the remote account `user_name@host_name` and store it.
    CreateRemoteUser { user_name: String, host_name: String },
    /// Store this follow.
    SaveFollow { follow: Follow },
    /// Send a `Follow` from the local `follow_from_name` to `user_name@host_name`.
    FollowRemotePerson { follow_from_name: String, user_name: String, host_name: String },
    /// Answer `204 No Content`.
    Done,
}

/// The step of a follow request after `event`: look the target up; store an
/// unknown remote target first, refuse an unknown local one with
/// `UserNotFound`; store the follow; then, for a remote target, send it a
/// `Follow`.
pub fn create_follow_next(plan: &FollowPlan, event: FollowEvent) -> (r: Result<
    FollowAction,
    ServiceError,
>)
    ensures
        match event {
            FollowEvent::Started => r matches Ok(FollowAction::LookUpUser { name })
                && name@ == plan.lookup_name@,
            FollowEvent::UserLookedUp { exists } => if exists {
                r matches Ok(FollowAction::SaveFollow { follow }) && follow.follow_from_name@
                    == plan.record.follow_from_name@ && follow.follow_to_name@
                    == plan.record.follow_to_name@
            } else if plan.target.is_remote {
                r matches Ok(FollowAction::CreateRemoteUser { user_name, host_name })
                    && user_name@ == plan.target.user_name@ && host_name@
                    == plan.target.host_name@
            } else {
                r matches Err(e) && e is UserNotFound
            },
            FollowEvent::RemoteUserCreated => r matches Ok(FollowAction::SaveFollow { follow })
                && follow.follow_from_name@ == plan.record.follow_from_name@
                && follow.follow_to_name@ == plan.record.follow_to_name@,
            FollowEvent::FollowSaved => if plan.target.is_remote {
                r matches Ok(
                    FollowAction::FollowRemotePerson { follow_from_name, user_name, host_name },
                ) && follow_from_name@ == plan.record.follow_from_name@ && user_name@
                    == plan.target.user_name@ && host_name@ == plan.target.host_name@
            } else {
                r matches Ok(FollowAction::Done)
            },
            FollowEvent::RemoteFollowed => r matches Ok(FollowAction::Done),
        },
{
    match event {
        FollowEvent::Started => Ok(FollowAction::LookUpUser { name: plan.lookup_name.clone() }),
        FollowEvent::UserLookedUp { exists } => {
            if exists {
                Ok(FollowAction::SaveFollow { follow: copy_follow(&plan.record) })
            } else if plan.target.is_remote {
                Ok(
                    FollowAction::CreateRemoteUser {
                        user_name: plan.target.user_name.clone(),
                        host_name: plan.target.host_name.clone(),
                    },
                )
            } else {
                Err(ServiceError::UserNotFound)
            }
        },
        FollowEvent::RemoteUserCreated => Ok(FollowAction::SaveFollow { follow: copy_follow(&plan.record) }),
        FollowEvent::FollowSaved => {
            if plan.target.is_remote {
                Ok(
                    FollowAction::FollowRemotePerson {
                        follow_from_name: plan.record.follow_from_name.clone(),
                        user_name: plan.target.user_name.clone(),
                        host_name: plan.target.host_name.clone(),
                    },
                )
            } else {
                Ok(FollowAction::Done)
            }
        },
        FollowEvent::RemoteFollowed => Ok(FollowAction::Done),
    }
}

/// The profiles of a list of users, in the same order.
pub fn profiles_of_users(users: Vec<User>) -> (r: Vec<UserProfile>)
    ensures
        r@ == users@.map_values(|u: User| profile_of_user(u)),
{
    let ghost all = users@;
    let mut rest = users;
    let mut r: Vec<UserProfile> = Vec::new();
    while rest.len() > 0
        invariant
            r@.len() + rest@.len() == all.len(),
            rest@ == all.skip(r@.len() as int),
            r@ == all.take(r@.len() as int).map_values(|u: User| profile_of_user(u)),
        decreases rest@.len(),
    {
        let ghost k = r@.len() as int;
        let u = rest.remove(0);
        r.push(UserProfile::from(u));
        assert(all.take(k + 1) =~= all.take(k).push(all[k]));
        assert(rest@ =~= all.skip(k + 1));
        assert(r@ =~= all.take(k + 1).map_values(|u: User| profile_of_user(u)));
    }
    assert(all.take(all.len() as int) =~= all);
    r
}

} // verus!
