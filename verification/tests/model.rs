use backend::error::{ErrorMessage, ServiceError};
use rsa::pkcs8::{DecodePrivateKey, EncodePrivateKey, EncodePublicKey, LineEnding};
use rsa::traits::PublicKeyParts;
use rsa::BigUint;
use backend::model::ap_person::ApPerson;
use backend::model::key_pair::{generate_key_pair, sign_headers, sign_headers_at};
use backend::model::user::{parse_user_and_host_name, User};
use backend::model::user_profile::UserProfile;
use backend::model::webfinger::{select_self_href, webfinger_request_url, Webfinger, WebfingerLink};

// A fixed 1024-bit RSA key for the signing tests, given by its numbers
// (public exponent 65537).
const MODULUS: &[u8] = &[
    173, 197, 36, 78, 145, 86, 107, 155, 1, 168, 35, 125, 106, 237, 14, 169, 69, 166, 1, 43,
    202, 132, 71, 181, 44, 235, 85, 13, 74, 42, 22, 164, 202, 248, 202, 217, 124, 50, 97,
    225, 128, 218, 193, 240, 7, 0, 208, 221, 199, 176, 163, 143, 185, 254, 70, 169, 137,
    131, 82, 235, 169, 65, 38, 19, 161, 129, 211, 65, 234, 48, 252, 12, 34, 139, 60, 187,
    12, 70, 55, 34, 140, 34, 209, 147, 248, 188, 104, 145, 208, 199, 193, 225, 168, 236, 10,
    42, 11, 225, 81, 18, 41, 91, 162, 220, 90, 20, 145, 158, 220, 118, 145, 176, 112, 28,
    199, 223, 130, 150, 112, 184, 140, 46, 169, 113, 101, 190, 245, 43
];

const PRIVATE_EXPONENT: &[u8] = &[
    133, 2, 69, 140, 46, 11, 44, 74, 117, 182, 49, 148, 42, 104, 81, 180, 151, 175, 61, 110,
    59, 145, 141, 33, 204, 196, 69, 81, 234, 214, 212, 134, 71, 38, 176, 126, 80, 102, 112,
    45, 159, 231, 210, 82, 219, 201, 112, 22, 146, 103, 78, 139, 17, 30, 229, 15, 152, 70,
    129, 14, 9, 123, 232, 156, 18, 122, 65, 62, 167, 9, 205, 117, 38, 189, 127, 122, 60,
    203, 114, 213, 147, 156, 85, 82, 181, 18, 44, 30, 46, 50, 11, 20, 247, 177, 54, 33, 8,
    46, 255, 53, 128, 249, 112, 138, 30, 125, 36, 6, 159, 113, 255, 152, 191, 211, 179, 210,
    115, 195, 55, 170, 57, 106, 127, 84, 72, 27, 0, 161
];

const PRIME_P: &[u8] = &[
    225, 228, 110, 108, 110, 77, 230, 155, 240, 62, 22, 78, 65, 78, 79, 236, 99, 96, 8, 199,
    178, 104, 91, 113, 120, 45, 138, 178, 3, 11, 107, 102, 57, 218, 63, 135, 186, 4, 47,
    196, 240, 122, 123, 222, 116, 92, 65, 175, 17, 102, 192, 214, 28, 19, 111, 5, 41, 86,
    177, 94, 226, 230, 158, 183
];

const PRIME_Q: &[u8] = &[
    196, 238, 69, 147, 176, 245, 105, 129, 40, 161, 234, 6, 44, 209, 229, 94, 128, 218, 148,
    202, 87, 251, 42, 179, 251, 90, 190, 177, 102, 71, 152, 61, 224, 237, 210, 24, 46, 163,
    60, 72, 224, 214, 152, 200, 188, 229, 57, 27, 185, 228, 208, 227, 236, 152, 181, 104,
    233, 238, 248, 129, 216, 196, 105, 45
];

/// The PKCS#8 PEM text of the fixed test key.
fn test_key() -> String {
    let key = rsa::RsaPrivateKey::from_components(
        BigUint::from_bytes_be(MODULUS),
        BigUint::from(65537u32),
        BigUint::from_bytes_be(PRIVATE_EXPONENT),
        vec![BigUint::from_bytes_be(PRIME_P), BigUint::from_bytes_be(PRIME_Q)],
    )
    .unwrap();
    key.to_pkcs8_pem(LineEnding::LF).unwrap().to_string()
}

fn pair(a: &str, b: &str) -> (String, String) {
    (a.to_string(), b.to_string())
}

#[test]
fn parse_user_and_host_name_splits_at_first_at() {
    assert_eq!(parse_user_and_host_name("alice@example.com"), Some(pair("alice", "example.com")));
    assert_eq!(parse_user_and_host_name("a@b@c"), Some(pair("a", "b")));
    assert_eq!(parse_user_and_host_name("@host"), Some(pair("", "host")));
    assert_eq!(parse_user_and_host_name("user@"), Some(pair("user", "")));
    assert_eq!(parse_user_and_host_name("alice"), None);
    assert_eq!(parse_user_and_host_name(""), None);
}

#[test]
fn parse_of_joined_name_gives_parts_back() {
    let joined = format!("{}@{}", "ikanago", "test.ikanago.dev");
    assert_eq!(parse_user_and_host_name(&joined), Some(pair("ikanago", "test.ikanago.dev")));
}

#[test]
fn error_messages_and_status_codes() {
    let cases = vec![
        (ServiceError::NameAlreadyTaken, 400, "The user name is already used"),
        (ServiceError::UserNotFound, 400, "The user is not found"),
        (ServiceError::InvalidActivityPubRequest("bad".to_string()), 400, "Invalid ActivityPub request: bad"),
        (ServiceError::WrongCredential, 401, "User name or password is wrong"),
        (ServiceError::InternalServerError, 500, "Internal server error"),
        (ServiceError::QueryError("no rows".to_string()), 500, "Query error: no rows"),
        (ServiceError::KeyError("bad key".to_string()), 500, "Key error: bad key"),
        (ServiceError::RequestError("timeout".to_string()), 500, "Failed to send request: timeout"),
    ];
    for (e, code, message) in cases {
        assert_eq!(e.status_code(), code);
        assert_eq!(e.to_string(), message);
    }
}

#[test]
fn error_response_carries_json_message() {
    let r = ServiceError::WrongCredential.error_response();
    assert_eq!(r.status, 401);
    assert_eq!(r.content_type, "application/json");
    assert_eq!(r.body, r#"{"error": "User name or password is wrong"}"#);
}

#[test]
fn error_body_escapes_message() {
    let r = ServiceError::QueryError("column \"name\" at C:\\db\nline\u{1}".to_string()).error_response();
    assert_eq!(r.status, 500);
    assert_eq!(r.body, r#"{"error": "Query error: column \"name\" at C:\\db\nline\u0001"}"#);
    let m = ErrorMessage { error: "tab\there\r\u{8}\u{c}\u{1f}".to_string() };
    assert_eq!(m.to_string(), r#"{"error": "tab\there\r\b\f\u001f"}"#);
}

#[test]
fn error_message_display() {
    let m = ErrorMessage { error: "oops".to_string() };
    assert_eq!(m.to_string(), r#"{"error": "oops"}"#);
}

#[test]
fn user_profile_from_user_keeps_public_fields() {
    let user = User {
        name: "alice".to_string(),
        password_hash: Some("hash".to_string()),
        display_name: "Alice".to_string(),
        summary: "I am Alice.".to_string(),
        avatar_url: "https://example.com/avatar.png".to_string(),
    };
    let p = UserProfile::from(user);
    assert_eq!(
        p,
        UserProfile {
            name: "alice".to_string(),
            display_name: "Alice".to_string(),
            summary: "I am Alice.".to_string(),
            avatar_url: "https://example.com/avatar.png".to_string(),
        }
    );
}

#[test]
fn user_profile_from_ap_person_defaults_missing_fields() {
    let person = ApPerson {
        id: "https://remote.example/users/bob".to_string(),
        type_: "Person".to_string(),
        preferred_username: "bob".to_string(),
        name: None,
        summary: Some("hi".to_string()),
        inbox: "https://remote.example/users/bob/inbox".to_string(),
    };
    let p = UserProfile::from(person);
    assert_eq!(p.name, "bob");
    assert_eq!(p.display_name, "");
    assert_eq!(p.summary, "hi");
    assert_eq!(p.avatar_url, "");
}

fn link(rel: &str, href: Option<&str>) -> WebfingerLink {
    WebfingerLink { href: href.map(|h| h.to_string()), rel: rel.to_string(), type_: None }
}

#[test]
fn resolve_remote_user() {
    let webfinger = Webfinger {
        subject: "acct:test@test.ikanago.dev".to_string(),
        links: vec![link("self", Some("https://test.ikanago.dev/users/test"))],
    };
    assert_eq!(select_self_href(&webfinger).unwrap(), "https://test.ikanago.dev/users/test");
}

#[test]
fn select_self_href_takes_first_self_link() {
    let webfinger = Webfinger {
        subject: "acct:a@b".to_string(),
        links: vec![
            link("http://webfinger.net/rel/profile-page", Some("https://b/@a")),
            link("self", Some("https://b/users/a")),
            link("self", Some("https://b/other")),
        ],
    };
    assert_eq!(select_self_href(&webfinger).unwrap(), "https://b/users/a");
}

#[test]
fn select_self_href_errors() {
    let none = Webfinger { subject: "acct:a@b".to_string(), links: vec![link("other", Some("x"))] };
    assert!(matches!(select_self_href(&none), Err(ServiceError::InternalServerError)));
    let no_href = Webfinger {
        subject: "acct:a@b".to_string(),
        links: vec![link("self", None), link("self", Some("https://b/users/a"))],
    };
    assert!(matches!(select_self_href(&no_href), Err(ServiceError::InternalServerError)));
}

#[test]
fn webfinger_request_url_names_account() {
    assert_eq!(
        webfinger_request_url("test", "test.ikanago.dev"),
        "https://test.ikanago.dev/.well-known/webfinger?resource=acct:test@test.ikanago.dev"
    );
}

#[test]
fn generate_key_pair_in_test_env_is_empty() {
    let (private_key, public_key) = generate_key_pair(Some("test")).unwrap();
    assert_eq!(private_key, "");
    assert_eq!(public_key, "");
}

#[test]
fn sign_headers_at_exact_values() {
    let headers = sign_headers_at(
        r#"{"type":"Follow"}"#,
        "https://remote.example/users/bob/inbox",
        &test_key(),
        "Tue, 1 Jul 2003 10:52:37 +0200",
    )
    .unwrap();
    let digest = "MTk4YzE4OWM3ZGMxODhlZTlhMjAyMTZkZDEzODQyZTViNTA4Mjc4NmYyYmVhNzY5NWFkNDdjOWI5N2NkOTMwYw==";
    let signature = "ln+Iu4F/Bm0LWoES7RCItS0tZiqXBw8LsTm5cYTWKC49b0TJ65353//lKdteOy/DOk3Q7THxcRrjX/hPu59Lq6VWseK8MOxMPYLU+g36Q8pkJvwor51NFFOFJZU1RODEZKpDkCmbI+V8bcIRHFtagWl95qxciOc+Ojbh/PKQQ50=";
    assert_eq!(
        headers,
        vec![
            pair("host", "remote.example"),
            pair("date", "Tue, 1 Jul 2003 10:52:37 +0200"),
            pair("content-type", "application/activity+json"),
            pair("digest", &format!("SHA-256={}", digest)),
            pair(
                "signature",
                &format!(
                    r#"keyId="https://ikanago.dev/users/test",algorithm="rsa-sha256",headers="(request-target) host date digest",signature="{}""#,
                    signature
                )
            ),
        ]
    );
}

#[test]
fn sign_headers_uses_current_date() {
    let headers = sign_headers("{}", "https://remote.example/inbox", &test_key()).unwrap();
    assert_eq!(headers.len(), 5);
    assert_eq!(headers[0], pair("host", "remote.example"));
    assert_eq!(headers[1].0, "date");
    assert!(!headers[1].1.is_empty());
}

#[test]
fn sign_headers_rejects_bad_url() {
    let r = sign_headers_at("{}", "not a url", &test_key(), "now");
    match r {
        Err(ServiceError::InvalidActivityPubRequest(m)) => assert_eq!(m, "Invalid URL: not a url"),
        _ => panic!("expected an invalid URL"),
    }
    let r = sign_headers_at("{}", "mailto:bob@remote.example", &test_key(), "now");
    assert!(matches!(r, Err(ServiceError::InvalidActivityPubRequest(_))));
}

#[test]
fn sign_headers_rejects_bad_key() {
    let r = sign_headers_at("{}", "https://remote.example/inbox", "not a key", "now");
    assert!(matches!(r, Err(ServiceError::KeyError(_))));
}

#[test]
fn generate_key_pair_gives_matching_halves() {
    let (private_key, public_key) = generate_key_pair(None).unwrap();
    let key = rsa::RsaPrivateKey::from_pkcs8_pem(&private_key).unwrap();
    let expected = rsa::RsaPublicKey::from(&key).to_public_key_pem(LineEnding::LF).unwrap();
    assert_eq!(public_key, expected);
    assert_ne!(public_key, "");
    assert_eq!(key.n().bits(), 2048);
}
