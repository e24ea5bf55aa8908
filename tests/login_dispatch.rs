use chat_core::dispatcher::{build_envelope, dispatch};
use chat_core::identity_cache::IdentityCache;
use chat_core::login::{check_credentials, complete_login, LoginFailure};
use chat_core::registry::{ConnectionRegistry, SendOutcome};
use chat_core::types::{Identity, Timestamp};

fn bob() -> Identity {
    Identity {
        user_id: 2,
        username: "bob".to_string(),
        contact: "bob@example.com".to_string(),
        password_hash: "hb".to_string(),
    }
}

#[test]
fn login_failures_map_to_statuses() {
    let e = check_credentials(false, false).unwrap_err();
    assert_eq!(e, LoginFailure::InvalidCredentials);
    assert_eq!(e.response().status, 401);
    assert_eq!(e.response().message, "Invalid credentials");
    let e = check_credentials(true, false).unwrap_err();
    assert_eq!(e, LoginFailure::WrongPassword);
    assert_eq!(e.response().status, 400);
    assert_eq!(e.response().message, "Wrong password");
    assert!(check_credentials(true, true).is_ok());
}

#[test]
fn login_success_caches_user_and_returns_token() {
    let mut cache = IdentityCache::new(300);
    let r = complete_login(&mut cache, bob(), "tok.en.sig".to_string(), 50);
    assert_eq!(r.access_token, "tok.en.sig");
    assert_eq!(r.username, "bob");
    assert_eq!(cache.get(2, 60).unwrap().contact, "bob@example.com");
}

#[test]
fn envelope_names_sender_as_friend() {
    let e = build_envelope(9, 77, "hey".to_string(), Timestamp { micros: 5 }, &bob());
    assert_eq!(e.chat_id, 9);
    assert_eq!(e.message_id, 77);
    assert_eq!(e.message_text, "hey");
    assert_eq!(e.sent_time, Timestamp { micros: 5 });
    assert_eq!(e.friend_username, "bob");
    assert_eq!(e.friend_user_id, 2);
}

#[test]
fn dispatch_reaches_connected_recipient_only() {
    let mut reg = ConnectionRegistry::new(4);
    let h = reg.register(1).unwrap();
    let out = dispatch(&mut reg, 1, 9, 77, "hey".to_string(), Timestamp { micros: 5 }, &bob());
    assert_eq!(out, SendOutcome::Delivered);
    let got = reg.take_outbound(1, h).unwrap();
    assert_eq!(got.len(), 1);
    assert_eq!(got[0].friend_user_id, 2);
    let out = dispatch(&mut reg, 3, 9, 78, "x".to_string(), Timestamp { micros: 6 }, &bob());
    assert_eq!(out, SendOutcome::NotConnected);
}
