use vstd::prelude::*;

use crate::identity_cache::{after_store, IdentityCache};
use crate::types::{AuthResponse, ErrorResponse, Identity};

verus! {

/// Why a login was refused.
#[derive(Clone, Copy, Debug, PartialEq, Eq, Structural)]
pub enum LoginFailure {
    /// No user has the given contact.
    InvalidCredentials,
    /// The user exists but the password does not match.
    WrongPassword,
}

/// The status that goes with a login failure.
pub open spec fn login_status(f: LoginFailure) -> u16 {
    match f {
        LoginFailure::InvalidCredentials => 401,
        LoginFailure::WrongPassword => 400,
    }
}

/// The message that goes with a login failure.
pub open spec fn login_message(f: LoginFailure) -> Seq<char> {
    match f {
        LoginFailure::InvalidCredentials => "Invalid credentials"@,
        LoginFailure::WrongPassword => "Wrong password"@,
    }
}

impl LoginFailure {
    /// The response that ends a refused login.
    pub fn response(&self) -> (r: ErrorResponse)
        ensures
            r.status == login_status(*self),
            r.message@ == login_message(*self),
    {
        match self {
            LoginFailure::InvalidCredentials => ErrorResponse {
                status: 401,
                message: "Invalid credentials".to_owned(),
            },
            LoginFailure::WrongPassword => ErrorResponse {
                status: 400,
                message: "Wrong password".to_owned(),
            },
        }
    }
}

/// Decides a login from whether a user was found for the contact and
/// whether the password matched that user's hash.
pub fn check_credentials(user_found: bool, password_matches: bool) -> (r: Result<(), LoginFailure>)
    ensures
        !user_found ==> r == Err::<(), LoginFailure>(LoginFailure::InvalidCredentials),
        user_found && !password_matches ==> r == Err::<(), LoginFailure>(
            LoginFailure::WrongPassword,
        ),
        user_found && password_matches ==> r is Ok,
{
    if !user_found {
        Err(LoginFailure::InvalidCredentials)
    } else if !password_matches {
        Err(LoginFailure::WrongPassword)
    } else {
        Ok(())
    }
}

/// Finishes a successful login: caches `user` as of `now` and builds the
/// response that carries the freshly signed token.
pub fn complete_login(cache: &mut IdentityCache, user: Identity, access_token: String, now: u64) -> (r:
    AuthResponse)
    requires
        old(cache).wf(),
    ensures
        final(cache).wf(),
        final(cache).ttl_spec() == old(cache).ttl_spec(),
        final(cache).entries() == after_store(old(cache).entries(), user, now),
        r.access_token == access_token,
        r.username == user.username,
{
    let username = user.username.clone();
    cache.store(user, now);
    AuthResponse { access_token, username }
}

} // verus!
