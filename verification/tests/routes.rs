use backend::error::ServiceError;
use backend::model::follow::Follow;
use backend::model::user::User;
use backend::routes::follow::{
    authorize_follow, create_follow_next, follow_target, plan_create_follow, profiles_of_users,
    FollowAction, FollowEvent,
};
use backend::routes::host_meta::host_meta_body;
use backend::routes::inbox::{inbox_reply, InboxBody};
use backend::routes::login::{login_decision, verify_password};
use backend::routes::nodeinfo::{nodeinfo, nodeinfo_discovery};
use backend::routes::post::{new_post, NewPost};
use backend::routes::require_session_user;
use backend::routes::reset_db::reset_statements;
use backend::routes::signup::{hash_password, password_cost, signup_key_pair, signup_user, SignupCredential};
use backend::routes::user_info::user_info_for_session;
use backend::routes::users::{local_actor_url, wants_activity_json};
use backend::routes::webfinger::{webfinger_response, webfinger_user_name};

fn user(name: &str) -> User {
    User {
        name: name.to_string(),
        password_hash: None,
        display_name: String::new(),
        summary: String::new(),
        avatar_url: String::new(),
    }
}

fn follow(from: &str, to: &str) -> Follow {
    Follow { follow_from_name: from.to_string(), follow_to_name: to.to_string() }
}

fn credential(name: &str, password: &str) -> SignupCredential {
    SignupCredential { name: name.to_string(), password: password.to_string() }
}

#[test]
fn session_user_cases() {
    assert_eq!(require_session_user(Ok(Some("alice".to_string()))).unwrap(), "alice");
    assert!(matches!(require_session_user(Ok(None)), Err(ServiceError::WrongCredential)));
    assert!(matches!(require_session_user(Err(())), Err(ServiceError::InternalServerError)));
}

#[test]
fn only_the_follower_may_follow_or_unfollow() {
    let me = "alice".to_string();
    assert!(authorize_follow(&me, &follow("alice", "bob")).is_ok());
    assert!(matches!(authorize_follow(&me, &follow("mallory", "bob")), Err(ServiceError::WrongCredential)));
    assert!(matches!(plan_create_follow(&me, follow("mallory", "bob")), Err(ServiceError::WrongCredential)));
}

#[test]
fn follow_target_local_and_remote() {
    let local = follow_target("bob");
    assert_eq!((local.user_name.as_str(), local.host_name.as_str(), local.is_remote), ("bob", "", false));
    let remote = follow_target("bob@remote.example");
    assert_eq!(
        (remote.user_name.as_str(), remote.host_name.as_str(), remote.is_remote),
        ("bob", "remote.example", true)
    );
}

#[test]
fn create_follow_plan_and_lookup_outcomes() {
    let me = "alice".to_string();
    let plan = plan_create_follow(&me, follow("alice", "bob@remote.example")).unwrap();
    assert_eq!(plan.lookup_name, "bob@remote.example");
    assert_eq!(plan.record.follow_from_name, "alice");
    assert_eq!(plan.record.follow_to_name, "bob");
    match create_follow_next(&plan, FollowEvent::Started).unwrap() {
        FollowAction::LookUpUser { name } => assert_eq!(name, "bob@remote.example"),
        _ => panic!("expected a lookup"),
    }
    match create_follow_next(&plan, FollowEvent::UserLookedUp { exists: false }).unwrap() {
        FollowAction::CreateRemoteUser { user_name, host_name } => {
            assert_eq!((user_name.as_str(), host_name.as_str()), ("bob", "remote.example"))
        }
        _ => panic!("expected the remote account to be created"),
    }
    match create_follow_next(&plan, FollowEvent::RemoteUserCreated).unwrap() {
        FollowAction::SaveFollow { follow } => {
            assert_eq!((follow.follow_from_name.as_str(), follow.follow_to_name.as_str()), ("alice", "bob"))
        }
        _ => panic!("expected the follow to be saved"),
    }
    match create_follow_next(&plan, FollowEvent::FollowSaved).unwrap() {
        FollowAction::FollowRemotePerson { follow_from_name, user_name, host_name } => assert_eq!(
            (follow_from_name.as_str(), user_name.as_str(), host_name.as_str()),
            ("alice", "bob", "remote.example")
        ),
        _ => panic!("expected a remote follow"),
    }
    assert!(matches!(create_follow_next(&plan, FollowEvent::RemoteFollowed), Ok(FollowAction::Done)));
    let local = plan_create_follow(&me, follow("alice", "carol")).unwrap();
    assert!(matches!(
        create_follow_next(&local, FollowEvent::UserLookedUp { exists: false }),
        Err(ServiceError::UserNotFound)
    ));
    assert!(matches!(
        create_follow_next(&local, FollowEvent::UserLookedUp { exists: true }),
        Ok(FollowAction::SaveFollow { .. })
    ));
    assert!(matches!(create_follow_next(&local, FollowEvent::FollowSaved), Ok(FollowAction::Done)));
}

#[test]
fn followers_keep_their_order() {
    let profiles = profiles_of_users(vec![user("u4"), user("u5")]);
    assert_eq!(profiles.len(), 2);
    assert_eq!(profiles[0].name, "u4");
    assert_eq!(profiles[1].name, "u5");
}

#[test]
fn webfinger_resource_names_account() {
    assert_eq!(webfinger_user_name("acct:alice@example.com"), "alice");
    assert_eq!(webfinger_user_name("alice"), "alice");
    assert_eq!(webfinger_user_name("acct:acct:bob@x"), "bob");
    assert_eq!(webfinger_user_name("acacct:ct:bob"), "acct:bob");
    assert_eq!(webfinger_user_name("acct:a:b@example.com"), "a:b");
}

#[test]
fn webfinger_answer_points_at_actor() {
    let w = webfinger_response("alice", "example.com");
    assert_eq!(w.subject, "acct:alice@example.com");
    assert_eq!(w.links.len(), 1);
    assert_eq!(w.links[0].href.as_deref(), Some("https://example.com/api/users/alice"));
    assert_eq!(w.links[0].rel, "self");
    assert_eq!(w.links[0].type_.as_deref(), Some("application/activity+json"));
    assert_eq!(w.links[0].href.clone().unwrap(), local_actor_url("example.com", "alice"));
    assert_eq!(webfinger_user_name(&w.subject), "alice");
}

#[test]
fn nodeinfo_documents() {
    let d = nodeinfo_discovery("example.com");
    assert_eq!(d.links.len(), 1);
    assert_eq!(d.links[0].rel, "http://nodeinfo.diaspora.software/ns/schema/2.1");
    assert_eq!(d.links[0].href, "https://example.com/nodeinfo/2.1");
    let n = nodeinfo();
    assert_eq!(n.version, "2.1");
    assert!(!n.open_registrations);
    assert_eq!(n.software.name, "elephas");
    assert_eq!(n.software.version, "0.1.0");
    assert_eq!(n.metadata.node_description, "elephas is a simple ActivityPub server.");
}

#[test]
fn host_meta_document() {
    assert_eq!(
        host_meta_body("example.com"),
        "<?xml version=\"1.0\" encoding=\"UTF-8\"?>\n<XRD xmlns=\"http://docs.oasis-open.org/ns/xri/xrd-1.0\">\n    <Link rel=\"lrdd\" type=\"application/xrd+xml\" template=\"https://$example.com/.well-known/webfinger?resource={uri}\"/>\n</XRD>"
    );
}

#[test]
fn inbox_accepts_follow_only() {
    let body = InboxBody {
        id: "https://remote.example/follows/1".to_string(),
        type_: "Follow".to_string(),
        actor: "https://remote.example/users/bob".to_string(),
        object: "https://example.com/api/users/alice".to_string(),
    };
    let reply = inbox_reply("example.com", &body).unwrap();
    assert_eq!(reply.target_inbox, "https://remote.example/users/bob/inbox");
    assert_eq!(reply.payload.context, "https://www.w3.org/ns/activitystreams");
    assert_eq!(reply.payload.id, "https://example.com/users/test/accept/1");
    assert_eq!(reply.payload.type_, "Accept");
    assert_eq!(reply.payload.actor, body.object);
    assert_eq!(reply.payload.object.id, body.id);
    assert_eq!(reply.payload.object.type_, "Follow");
    assert_eq!(reply.payload.object.actor, body.actor);
    let like = InboxBody { type_: "Like".to_string(), ..body };
    assert!(inbox_reply("example.com", &like).is_none());
}

#[test]
fn password_cost_by_env() {
    assert_eq!(password_cost(Some("dev")), 4);
    assert_eq!(password_cost(Some("prod")), 12);
    assert_eq!(password_cost(None), 12);
}

#[test]
fn hashed_password_verifies() {
    let h = hash_password("password", Some("dev")).unwrap();
    assert!(h.starts_with("$2b$04$"));
    assert!(verify_password("password", &h).is_ok());
    assert!(matches!(verify_password("xxxx", &h), Err(ServiceError::WrongCredential)));
    assert!(matches!(verify_password("password", "not a hash"), Err(ServiceError::InternalServerError)));
}

#[test]
fn error_already_used_name() {
    let registration = credential("ikanago", "password");
    assert!(signup_user(false, &registration, Some("dev")).is_ok());
    assert!(matches!(signup_user(true, &registration, Some("dev")), Err(ServiceError::NameAlreadyTaken)));
}

#[test]
fn invalid_password() {
    let u = signup_user(false, &credential("ikanago", "password"), Some("dev")).unwrap();
    let res = login_decision(Ok(u), "xxxx");
    assert!(matches!(res, Err(ServiceError::WrongCredential)));
}

#[test]
fn signed_up_user_logs_in() {
    let u = signup_user(false, &credential("ikanago", "password"), Some("dev")).unwrap();
    assert_eq!(u.name, "ikanago");
    assert_eq!(u.display_name, "");
    assert_eq!(login_decision(Ok(u), "password").unwrap(), "ikanago");
}

#[test]
fn login_failures() {
    let unknown = login_decision(Err(ServiceError::QueryError("none".to_string())), "p").unwrap_err();
    assert_eq!(unknown.status_code(), 401);
    assert!(matches!(login_decision(Err(ServiceError::QueryError("none".to_string())), "p"), Err(ServiceError::WrongCredential)));
    assert!(matches!(login_decision(Ok(user("remote")), "p"), Err(ServiceError::WrongCredential)));
}

#[test]
fn signup_key_pair_in_test_env() {
    let k = signup_key_pair("ikanago", Some("test")).unwrap();
    assert_eq!(k.user_name, "ikanago");
    assert_eq!(k.private_key, "");
    assert_eq!(k.public_key, "");
}

#[test]
fn new_post_keeps_author_and_content() {
    let p = new_post("user-1".to_string(), NewPost { content: "hello".to_string() });
    assert_eq!(p.user_id, "user-1");
    assert_eq!(p.content, "hello");
    assert_eq!(p.id.len(), 36);
    for (i, c) in p.id.chars().enumerate() {
        if [8, 13, 18, 23].contains(&i) {
            assert_eq!(c, '-');
        } else {
            assert!(c.is_ascii_digit() || ('a'..='f').contains(&c));
        }
    }
    assert_eq!(p.id.chars().nth(14), Some('4'));
    assert!(['8', '9', 'a', 'b'].contains(&p.id.chars().nth(19).unwrap()));
    let q = new_post("user-1".to_string(), NewPost { content: "hello".to_string() });
    assert_ne!(p.id, q.id);
}

#[test]
fn reset_statements_skip_unnamed_tables() {
    let r = reset_statements(&vec![Some("users".to_string()), None, Some("follows".to_string())]);
    assert_eq!(r, vec!["DELETE FROM users CASCADE;".to_string(), "DELETE FROM follows CASCADE;".to_string()]);
}

#[test]
fn accept_header_selection() {
    assert!(wants_activity_json("application/ld+json"));
    assert!(wants_activity_json("text/html, application/ld+json; profile=\"x\""));
    assert!(!wants_activity_json("*/*"));
    assert!(!wants_activity_json("application/ld"));
}

#[test]
fn user_info_get_user_info_activity_json() {
    let d = backend::routes::user_info::user_info_activity_json("example.com", "ikanago", "PEM");
    assert_eq!(d.type_, "Person");
    assert_eq!(d.name, "ikanago");
    assert_eq!(d.id, "https://example.com/users/ikanago");
    assert_eq!(d.inbox, "https://example.com/users/ikanago/inbox");
    assert!(d.url.is_none());
}

#[test]
fn users_get_user_info_activity_json() {
    let d = backend::routes::users::user_info_activity_json("example.com", "ikanago", "PEM");
    assert_eq!(d.type_, "Person");
    assert_eq!(d.name, "ikanago");
    assert_eq!(d.id, "https://example.com/api/users/ikanago");
    assert_eq!(d.url.as_deref(), Some("https://example.com/api/users/ikanago"));
    assert_eq!(d.inbox, "https://example.com/api/users/ikanago/inbox");
    assert_eq!(d.discoverable, Some(true));
    assert_eq!(d.context, vec!["https://www.w3.org/ns/activitystreams".to_string(), "https://w3id.org/security/v1".to_string()]);
    assert_eq!(d.public_key.id, "https://example.com/api/users/ikanago#main-key");
    assert_eq!(d.public_key.owner, d.id);
    assert_eq!(d.public_key.public_key_pem, "PEM");
    assert_eq!(d.icon.type_, "Image");
    assert_eq!(d.icon.name, "");
}

#[test]
fn error_other_users_session() {
    let res = user_info_for_session("mallory", &user("ikanago"));
    assert!(res.is_err());
    assert_eq!(user_info_for_session("ikanago", &user("ikanago")).unwrap().name, "ikanago");
}
