use backend::model::activitypub::Person;
use backend::model::user::User;
use backend::service::activitypub::follow_activity;
use backend::service::remote_user::remote_user_from_person;
use backend::service::user_profile::{apply_profile_update, user_profile_source, ProfileSource, UserProfileUpdate};

#[test]
fn follow_activity_names_local_actor() {
    let a = follow_activity("example.com", "alice", "https://remote.example/users/bob");
    assert_eq!(a.context, vec!["https://www.w3.org/ns/activitystreams".to_string(), "https://w3id.org/security/v1".to_string()]);
    assert_eq!(a.type_, "Follow");
    assert_eq!(a.actor, "https://example.com/api/users/alice");
    assert_eq!(a.object, "https://remote.example/users/bob");
    let d = backend::routes::users::user_info_activity_json("example.com", "alice", "");
    assert_eq!(a.actor, d.id);
}

#[test]
fn remote_user_record_from_person() {
    let person = Person {
        id: "https://test.ikanago.dev/users/test".to_string(),
        type_: "Person".to_string(),
        preferred_username: "test".to_string(),
        name: Some("Test".to_string()),
        summary: None,
        inbox: "https://test.ikanago.dev/users/test/inbox".to_string(),
    };
    let u = remote_user_from_person(person);
    assert_eq!(u.name, "test");
    assert_eq!(u.password_hash, None);
    assert_eq!(u.display_name, "Test");
    assert_eq!(u.summary, "");
    assert_eq!(u.avatar_url, "");
}

#[test]
fn profile_source_by_name() {
    match user_profile_source("bob@remote.example") {
        ProfileSource::Remote { user_name, host_name } => {
            assert_eq!(user_name, "bob");
            assert_eq!(host_name, "remote.example");
        }
        _ => panic!("expected a remote account"),
    }
    match user_profile_source("alice") {
        ProfileSource::Local { user_name } => assert_eq!(user_name, "alice"),
        _ => panic!("expected a local account"),
    }
}

#[test]
fn profile_update_keeps_name_and_password() {
    let user = User {
        name: "alice".to_string(),
        password_hash: Some("h".to_string()),
        display_name: "old".to_string(),
        summary: "old".to_string(),
        avatar_url: "old".to_string(),
    };
    let u = apply_profile_update(
        user,
        UserProfileUpdate {
            display_name: "Alice".to_string(),
            summary: "hi".to_string(),
            avatar_url: "https://example.com/a.png".to_string(),
        },
    );
    assert_eq!(u.name, "alice");
    assert_eq!(u.password_hash.as_deref(), Some("h"));
    assert_eq!(u.display_name, "Alice");
    assert_eq!(u.summary, "hi");
    assert_eq!(u.avatar_url, "https://example.com/a.png");
}
