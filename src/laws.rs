use vstd::prelude::*;

use crate::auth_gate::{is_expired, token_verdict, AuthError, Claims, TokenCheck};
use crate::identity_cache::{after_lookup, after_store, cached_lookup, keyed_by_user, CacheEntry};
use crate::registry::{ChannelView, ConnectionHandle, RegistryView, SendOutcome};
use crate::types::{Identity, OutgoingSocketMessage};
use crate::validator::{field_problem, register_problems, Field, RegisterBody, MAX_FIELD_CHARS};

verus! {

/// A stored identity is returned unchanged, and the cache left as it was,
/// for as long as it is fresh; once its time-to-live has elapsed a lookup
/// reports it absent, and storing it again makes it present again.
pub proof fn lemma_cache_read_through(
    m: Map<i32, CacheEntry>,
    ttl: u64,
    identity: Identity,
    stored_at: u64,
    now: u64,
    restored_at: u64,
)
    requires
        ttl > 0,
    ensures
        ({
            let m1 = after_store(m, identity, stored_at);
            let u = identity.user_id;
            &&& now - stored_at < ttl ==> cached_lookup(m1, ttl, u, now) == Some(identity)
                && after_lookup(m1, ttl, u, now) == m1
            &&& now - stored_at >= ttl ==> cached_lookup(m1, ttl, u, now) is None
                && cached_lookup(
                after_store(after_lookup(m1, ttl, u, now), identity, restored_at),
                ttl,
                u,
                restored_at,
            ) == Some(identity)
        }),
{
}

/// After `user_id` registers, a message sent to `user_id` is queued on that
/// new connection and on no other channel.
pub proof fn lemma_send_reaches_registered(s: RegistryView, u: i32, m: OutgoingSocketMessage)
    requires
        s.wf(),
        s.can_issue(),
        s.max_backlog > 0,
    ensures
        ({
            let s1 = s.registered(u);
            let s2 = s1.sent(u, m);
            &&& s1.send_outcome(u) == SendOutcome::Delivered
            &&& s2.channels[u] == ChannelView { handle: s.fresh_handle(), pending: seq![m] }
            &&& s2.channels.remove(u) == s.channels.remove(u)
        }),
{
    let s1 = s.registered(u);
    assert(s1.sent(u, m).channels.remove(u) =~= s.channels.remove(u));
    assert(seq![].push(m) =~= seq![m]);
}

/// A second registration of the same user supersedes the first: later
/// messages reach only the new connection, and a late unregistration or
/// drain by the old connection changes nothing.
pub proof fn lemma_reconnect_supersedes(s: RegistryView, u: i32, m: OutgoingSocketMessage)
    requires
        s.wf(),
        s.next_id < u64::MAX - 1,
        s.max_backlog > 0,
    ensures
        ({
            let a = s.fresh_handle();
            let s1 = s.registered(u);
            let b = s1.fresh_handle();
            let s2 = s1.registered(u);
            &&& a != b
            &&& s2.send_outcome(u) == SendOutcome::Delivered
            &&& s2.sent(u, m).channels[u] == ChannelView { handle: b, pending: seq![m] }
            &&& s2.sent(u, m).drained(u, a) is None
            &&& s2.unregistered(u, a) == s2
            &&& s2.unregistered(u, a).is_current(u, b)
        }),
{
    assert(seq![].push(m) =~= seq![m]);
}

/// Once the current connection of a user unregisters, sending to that
/// user reports it unreachable and changes nothing.
pub proof fn lemma_unregistered_not_connected(
    s: RegistryView,
    u: i32,
    h: ConnectionHandle,
    m: OutgoingSocketMessage,
)
    requires
        s.is_current(u, h),
    ensures
        s.unregistered(u, h).send_outcome(u) == SendOutcome::NotConnected,
        s.unregistered(u, h).sent(u, m) == s.unregistered(u, h),
{
}

/// Registry operations on two different users touch disjoint entries:
/// sends, unregistrations and drains on one user commute with those on the
/// other, and registering one user leaves the other's channel as it was.
pub proof fn lemma_disjoint_users_commute(
    s: RegistryView,
    u: i32,
    v: i32,
    hu: ConnectionHandle,
    hv: ConnectionHandle,
    mu: OutgoingSocketMessage,
    mv: OutgoingSocketMessage,
)
    requires
        u != v,
    ensures
        s.sent(u, mu).sent(v, mv) == s.sent(v, mv).sent(u, mu),
        s.sent(u, mu).unregistered(v, hv) == s.unregistered(v, hv).sent(u, mu),
        s.sent(u, mu).after_drain(v, hv) == s.after_drain(v, hv).sent(u, mu),
        s.unregistered(u, hu).unregistered(v, hv) == s.unregistered(v, hv).unregistered(u, hu),
        s.registered(u).channels.remove(u) == s.channels.remove(u),
        s.sent(u, mu).channels.remove(u) == s.channels.remove(u),
{
    assert(s.sent(u, mu).sent(v, mv).channels =~= s.sent(v, mv).sent(u, mu).channels);
    assert(s.sent(u, mu).unregistered(v, hv).channels =~= s.unregistered(v, hv).sent(
        u,
        mu,
    ).channels);
    assert(s.sent(u, mu).after_drain(v, hv).channels =~= s.after_drain(v, hv).sent(
        u,
        mu,
    ).channels);
    assert(s.unregistered(u, hu).unregistered(v, hv).channels =~= s.unregistered(
        v,
        hv,
    ).unregistered(u, hu).channels);
    assert(s.registered(u).channels.remove(u) =~= s.channels.remove(u));
    assert(s.sent(u, mu).channels.remove(u) =~= s.channels.remove(u));
}

/// A token whose expiry has passed is refused, whether or not its
/// signature verifies.
pub proof fn lemma_expired_token_refused(c: Claims, now: u64)
    requires
        is_expired(c, now),
    ensures
        token_verdict(TokenCheck::Signed(c), now) == Err::<i32, AuthError>(AuthError::Expired),
        token_verdict(TokenCheck::BadSignature(c), now) is Err,
{
}

/// A signed, unexpired token vouches for exactly the user id in its
/// claims, and a cache hit for that id yields an identity with that id.
pub proof fn lemma_valid_token_identity(
    c: Claims,
    now: u64,
    m: Map<i32, CacheEntry>,
    ttl: u64,
    lookup_at: u64,
)
    requires
        !is_expired(c, now),
        keyed_by_user(m),
    ensures
        token_verdict(TokenCheck::Signed(c), now) == Ok::<i32, AuthError>(c.user_id),
        cached_lookup(m, ttl, c.user_id, lookup_at) matches Some(i) ==> i.user_id == c.user_id,
{
}

/// A registration body that lacks a field is refused; one whose fields are
/// all present, non-empty and within bounds is accepted.
pub proof fn lemma_register_body_checked(b: RegisterBody)
    ensures
        b.username is None || b.contact is None || b.password is None ==> register_problems(b).len()
            > 0,
        field_problem(Field::Username, b.username, MAX_FIELD_CHARS) is None && field_problem(
            Field::Contact,
            b.contact,
            MAX_FIELD_CHARS,
        ) is None && field_problem(Field::Password, b.password, MAX_FIELD_CHARS) is None
            ==> register_problems(b).len() == 0,
{
}

} // verus!
