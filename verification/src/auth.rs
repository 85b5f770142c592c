//! Who may use the routes behind the login.

use crate::cache::SessionCache;
use crate::error::Error;
use crate::response::StatusCode;
use crate::response::UNAUTHORIZED;
use vstd::prelude::*;

verus! {

/// The name of the cookie that carries the session token.
pub const SESSION: &'static str = "hawk-session";

/// The proof that a request came with a live session.
#[derive(Clone, Copy, Debug, PartialEq, Eq, Structural)]
pub struct Auth;

/// Whether a request is let in: only one that carried a session cookie
/// whose token the store, asked through the cache, confirmed as live. A
/// request without the cookie, a token that is not live and a failed query
/// are all turned away as unauthorized.
pub open spec fn admitted(validity: Option<Result<bool, Error>>) -> Result<Auth, StatusCode> {
    match validity {
        Some(Ok(true)) => Ok(Auth),
        _ => Err(StatusCode(UNAUTHORIZED)),
    }
}

impl Auth {
    /// Judges a request by what is known of its session cookie: `None`
    /// where it carried none, and else the answer to the question whether
    /// the cookie's token is live.
    pub fn judge(validity: Option<Result<bool, Error>>) -> (r: Result<Auth, StatusCode>)
        ensures
            r == admitted(validity),
    {
        match validity {
            Some(Ok(true)) => Ok(Auth),
            _ => Err(StatusCode(UNAUTHORIZED)),
        }
    }

    /// Admits or turns away a request, given the value of its session
    /// cookie if it carried one. The token is looked up through the session
    /// cache, which asks `query` where it does not know the token. A request
    /// without the cookie is turned away without a look at the cache.
    pub fn from_request<F: FnOnce() -> Result<bool, Error>>(
        cookie: Option<&str>,
        sessions: &mut SessionCache,
        query: F,
    ) -> (r: Result<Auth, StatusCode>)
        requires
            query.requires(()),
        ensures
            cookie is None ==> r == admitted(None) && final(sessions)@ == old(sessions)@,
            cookie is Some && old(sessions)@.hit(cookie->Some_0@) ==> r == admitted(
                Some(Ok(old(sessions)@.settled().entries[cookie->Some_0@])),
            ) && final(sessions)@ == old(sessions)@.settled(),
            cookie is Some && !old(sessions)@.hit(cookie->Some_0@) ==> exists|
                fetched: Result<bool, Error>,
            |
                query.ensures((), fetched) && r == admitted(Some(fetched)) && final(sessions)@
                    == match fetched {
                    Ok(valid) => old(sessions)@.after_read(cookie->Some_0@, valid),
                    Err(_) => old(sessions)@.after_failed_read(),
                },
    {
        match cookie {
            None => Auth::judge(None),
            Some(token) => {
                let validity = sessions.is_session_valid(token, query);
                Auth::judge(Some(validity))
            },
        }
    }
}

} // verus!
