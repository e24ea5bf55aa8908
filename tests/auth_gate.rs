use chat_core::auth_gate::{check_token, finish_lookup, AuthError, AuthStep, Claims, TokenCheck};
use chat_core::identity_cache::IdentityCache;
use chat_core::types::Identity;

fn user(id: i32) -> Identity {
    Identity {
        user_id: id,
        username: format!("user{}", id),
        contact: format!("user{}@example.com", id),
        password_hash: "h".to_string(),
    }
}

#[test]
fn expired_token_is_refused_with_401() {
    let mut cache = IdentityCache::new(60);
    cache.store(user(3), 100);
    let c = Claims { user_id: 3, expires_at: 100 };
    match check_token(&mut cache, TokenCheck::Signed(c), 100) {
        AuthStep::Rejected(e) => {
            assert_eq!(e, AuthError::Expired);
            let r = e.response();
            assert_eq!(r.status, 401);
            assert_eq!(r.message, "Token expired");
        }
        other => panic!("unexpected {:?}", other),
    }
    match check_token(&mut cache, TokenCheck::BadSignature(c), 200) {
        AuthStep::Rejected(e) => assert_eq!(e.response().status, 401),
        other => panic!("unexpected {:?}", other),
    }
}

#[test]
fn malformed_and_badly_signed_tokens_are_invalid() {
    let mut cache = IdentityCache::new(60);
    let c = Claims { user_id: 3, expires_at: 1000 };
    for t in [TokenCheck::Malformed, TokenCheck::BadSignature(c)] {
        match check_token(&mut cache, t, 10) {
            AuthStep::Rejected(e) => {
                assert_eq!(e, AuthError::InvalidToken);
                assert_eq!(e.response().message, "Invalid token");
            }
            other => panic!("unexpected {:?}", other),
        }
    }
}

#[test]
fn valid_token_cache_hit_admits_claimed_user() {
    let mut cache = IdentityCache::new(60);
    cache.store(user(3), 10);
    let c = Claims { user_id: 3, expires_at: 1000 };
    match check_token(&mut cache, TokenCheck::Signed(c), 20) {
        AuthStep::Admitted(i) => {
            assert_eq!(i.user_id, 3);
            assert_eq!(i.username, "user3");
        }
        other => panic!("unexpected {:?}", other),
    }
}

#[test]
fn valid_token_cache_miss_asks_for_lookup_then_caches() {
    let mut cache = IdentityCache::new(60);
    let c = Claims { user_id: 4, expires_at: 1000 };
    match check_token(&mut cache, TokenCheck::Signed(c), 20) {
        AuthStep::Lookup(u) => assert_eq!(u, 4),
        other => panic!("unexpected {:?}", other),
    }
    let i = finish_lookup(&mut cache, 4, Some(user(4)), 20).unwrap();
    assert_eq!(i.user_id, 4);
    assert_eq!(cache.get(4, 21).unwrap().username, "user4");
}

#[test]
fn lookup_of_deleted_user_is_unknown() {
    let mut cache = IdentityCache::new(60);
    let e = finish_lookup(&mut cache, 4, None, 20).unwrap_err();
    assert_eq!(e, AuthError::UnknownUser);
    assert_eq!(e.response().status, 401);
    assert_eq!(e.response().message, "Unknown user");
    let e = finish_lookup(&mut cache, 4, Some(user(5)), 20).unwrap_err();
    assert_eq!(e, AuthError::UnknownUser);
    assert!(cache.get(5, 20).is_none());
}
