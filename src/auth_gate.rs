use vstd::prelude::*;

use crate::identity_cache::{after_lookup, after_store, cached_lookup, IdentityCache};
use crate::types::{ErrorResponse, Identity};

verus! {

/// Status of every refusal of a token.
pub const UNAUTHORIZED: u16 = 401;

/// The claims carried by a bearer token.
#[derive(Clone, Copy, Debug, PartialEq, Eq, Structural)]
pub struct Claims {
    pub user_id: i32,
    /// Second (Unix time) from which the token is no longer accepted.
    pub expires_at: u64,
}

/// What decoding a bearer token yielded.
#[derive(Clone, Copy, Debug, PartialEq, Eq, Structural)]
pub enum TokenCheck {
    /// The token could not be decoded at all.
    Malformed,
    /// The token decoded, but its signature does not verify.
    BadSignature(Claims),
    /// The token decoded and its signature verifies.
    Signed(Claims),
}

/// Why a request was refused authentication.
#[derive(Clone, Copy, Debug, PartialEq, Eq, Structural)]
pub enum AuthError {
    InvalidToken,
    Expired,
    UnknownUser,
}

/// The authentication decision before any lookup in the user store.
#[derive(Debug)]
pub enum AuthStep {
    /// The identity came from the cache: the request may proceed.
    Admitted(Identity),
    /// The token is good but the identity is not cached: look this user up.
    Lookup(i32),
    /// The request is refused.
    Rejected(AuthError),
}

/// Whether claims have expired at `now`.
pub open spec fn is_expired(c: Claims, now: u64) -> bool {
    now >= c.expires_at
}

/// What a token amounts to, before the cache is consulted: the user id it
/// vouches for, or why it is refused.
pub open spec fn token_verdict(token: TokenCheck, now: u64) -> Result<i32, AuthError> {
    match token {
        TokenCheck::Malformed => Err(AuthError::InvalidToken),
        TokenCheck::BadSignature(_) => Err(AuthError::InvalidToken),
        TokenCheck::Signed(c) => if is_expired(c, now) {
            Err(AuthError::Expired)
        } else {
            Ok(c.user_id)
        },
    }
}

/// The message sent back with a rejection.
pub open spec fn auth_message(e: AuthError) -> Seq<char> {
    match e {
        AuthError::InvalidToken => "Invalid token"@,
        AuthError::Expired => "Token expired"@,
        AuthError::UnknownUser => "Unknown user"@,
    }
}

impl AuthError {
    /// The response that ends a refused request.
    pub fn response(&self) -> (r: ErrorResponse)
        ensures
            r.status == UNAUTHORIZED,
            r.message@ == auth_message(*self),
    {
        let message = match self {
            AuthError::InvalidToken => "Invalid token".to_owned(),
            AuthError::Expired => "Token expired".to_owned(),
            AuthError::UnknownUser => "Unknown user".to_owned(),
        };
        ErrorResponse { status: UNAUTHORIZED, message }
    }
}

/// Checks a decoded token at `now` and consults the cache for its user.
pub fn check_token(cache: &mut IdentityCache, token: TokenCheck, now: u64) -> (r: AuthStep)
    requires
        old(cache).wf(),
    ensures
        final(cache).wf(),
        final(cache).ttl_spec() == old(cache).ttl_spec(),
        match token_verdict(token, now) {
            Err(e) => r == AuthStep::Rejected(e) && final(cache).entries() == old(
                cache,
            ).entries(),
            Ok(u) => {
                &&& final(cache).entries() == after_lookup(
                    old(cache).entries(),
                    old(cache).ttl_spec(),
                    u,
                    now,
                )
                &&& match cached_lookup(old(cache).entries(), old(cache).ttl_spec(), u, now) {
                    Some(i) => r == AuthStep::Admitted(i),
                    None => r == AuthStep::Lookup(u),
                }
            },
        },
        r matches AuthStep::Admitted(i) ==> token matches TokenCheck::Signed(c) && i.user_id
            == c.user_id,
{
    match token {
        TokenCheck::Malformed => AuthStep::Rejected(AuthError::InvalidToken),
        TokenCheck::BadSignature(_) => AuthStep::Rejected(AuthError::InvalidToken),
        TokenCheck::Signed(c) => {
            if now >= c.expires_at {
                AuthStep::Rejected(AuthError::Expired)
            } else {
                match cache.get(c.user_id, now) {
                    Some(i) => AuthStep::Admitted(i),
                    None => AuthStep::Lookup(c.user_id),
                }
            }
        },
    }
}

/// Ends a lookup of `user_id` in the user store: a found identity is cached
/// as of `now` and admitted; a missing one, or one for another user, is refused.
pub fn finish_lookup(cache: &mut IdentityCache, user_id: i32, found: Option<Identity>, now: u64) -> (r:
    Result<Identity, AuthError>)
    requires
        old(cache).wf(),
    ensures
        final(cache).wf(),
        final(cache).ttl_spec() == old(cache).ttl_spec(),
        match found {
            Some(i) if i.user_id == user_id => r == Ok::<Identity, AuthError>(i)
                && final(cache).entries() == after_store(old(cache).entries(), i, now),
            _ => r == Err::<Identity, AuthError>(AuthError::UnknownUser) && final(cache).entries()
                == old(cache).entries(),
        },
{
    match found {
        Some(i) => {
            if i.user_id == user_id {
                cache.store(i.duplicate(), now);
                Ok(i)
            } else {
                Err(AuthError::UnknownUser)
            }
        },
        None => Err(AuthError::UnknownUser),
    }
}

} // verus!
