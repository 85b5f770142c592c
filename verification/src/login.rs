//! Logging in: from a submitted form to a session and its cookie.
//!
//! The store is asked twice on the way, for the user's record and to keep
//! the new session. Each function here takes the outcome of one of these
//! queries, decides, and names what the caller has to do next.

use crate::auth::SESSION;
use crate::cache::SessionCache;
use crate::error::Error;
use vstd::prelude::*;

verus! {

/// The number of characters of a session token.
pub const TOKEN_LENGTH: usize = 64;

/// For how many seconds a session cookie is kept: seven days.
pub const SESSION_SECONDS: u64 = 604800;

/// The submitted login form.
#[derive(Debug, PartialEq, Eq)]
pub struct Login {
    pub username: String,
    pub password: String,
    /// A field that no person fills in: the page hides it.
    pub email: String,
}

/// What the store holds on a user, as far as logging in needs it.
#[derive(Debug, PartialEq, Eq)]
pub struct UserRecord {
    pub id: u128,
    pub hash: String,
}

/// The cookie that carries a session token, with the attributes that keep
/// it away from scripts, plain connections and other sites.
#[derive(Debug, PartialEq, Eq)]
pub struct SessionCookie {
    pub name: &'static str,
    pub value: String,
    pub path: &'static str,
    pub secure: bool,
    pub http_only: bool,
    pub same_site_strict: bool,
    pub max_age_seconds: u64,
}

/// The mathematical content of a [`SessionCookie`].
pub struct SessionCookieView {
    pub name: Seq<char>,
    pub value: Seq<char>,
    pub path: Seq<char>,
    pub secure: bool,
    pub http_only: bool,
    pub same_site_strict: bool,
    pub max_age_seconds: nat,
}

impl View for SessionCookie {
    type V = SessionCookieView;

    open spec fn view(&self) -> SessionCookieView {
        SessionCookieView {
            name: self.name@,
            value: self.value@,
            path: self.path@,
            secure: self.secure,
            http_only: self.http_only,
            same_site_strict: self.same_site_strict,
            max_age_seconds: self.max_age_seconds as nat,
        }
    }
}

/// The session cookie for `token`.
pub open spec fn session_cookie(token: Seq<char>) -> SessionCookieView {
    SessionCookieView {
        name: SESSION@,
        value: token,
        path: "/"@,
        secure: true,
        http_only: true,
        same_site_strict: true,
        max_age_seconds: SESSION_SECONDS as nat,
    }
}

/// What the caller has to do next for a login.
#[derive(Debug, PartialEq, Eq)]
pub enum LoginAction {
    /// Send the client back to the front page, logged in or not.
    Redirect,
    /// Ask the store for the record of the user of this name.
    FindUser { username: String },
    /// Keep a session of this user under this token in the store.
    CreateSession { user: u128, token: String },
    /// Hand this cookie to the client and send it to the front page.
    Grant { cookie: SessionCookie },
    /// Report the login as failed for this reason.
    Abort { error: Error },
}

/// The mathematical content of a [`LoginAction`].
pub enum LoginActionView {
    Redirect,
    FindUser { username: Seq<char> },
    CreateSession { user: u128, token: Seq<char> },
    Grant { cookie: SessionCookieView },
    Abort { error: Error },
}

impl View for LoginAction {
    type V = LoginActionView;

    open spec fn view(&self) -> LoginActionView {
        match self {
            LoginAction::Redirect => LoginActionView::Redirect,
            LoginAction::FindUser { username } => LoginActionView::FindUser { username: username@ },
            LoginAction::CreateSession { user, token } => LoginActionView::CreateSession {
                user: *user,
                token: token@,
            },
            LoginAction::Grant { cookie } => LoginActionView::Grant { cookie: cookie@ },
            LoginAction::Abort { error } => LoginActionView::Abort { error: *error },
        }
    }
}

/// Whether `c` is one of the 64 characters that tokens are made of: a
/// letter, a digit, `_` or `-`.
pub open spec fn is_token_char(c: char) -> bool {
    ||| c == '_'
    ||| c == '-'
    ||| '0' as u32 <= c as u32 <= '9' as u32
    ||| 'a' as u32 <= c as u32 <= 'z' as u32
    ||| 'A' as u32 <= c as u32 <= 'Z' as u32
}

/// Whether `token` has the shape of a session token.
pub open spec fn is_session_token(token: Seq<char>) -> bool {
    &&& token.len() == TOKEN_LENGTH
    &&& forall|i: int| 0 <= i < token.len() ==> is_token_char(#[trigger] token[i])
}

/// Calls `nanoid::format` with the crate's default random source, its
/// URL-safe alphabet of 64 characters and the token length, as the crate's
/// macro does. With an alphabet of that size the call maps each of as many
/// random bytes as the length asks for to one character of the alphabet.
#[verifier::external_body]
fn random_token() -> (token: String)
    ensures
        is_session_token(token@),
{
    nanoid::format(nanoid::rngs::default, &nanoid::alphabet::SAFE, TOKEN_LENGTH)
}

#[verifier::external_type_specification]
#[verifier::external_body]
pub struct ExBcryptError(bcrypt::BcryptError);

/// What `bcrypt::verify` makes of a password and a stored hash: whether
/// they match, or `None` where it reports an error.
pub uninterp spec fn bcrypt_verify(password: Seq<char>, hash: Seq<char>) -> Option<bool>;

/// Calls `bcrypt::verify`, which parses the stored hash, hashes the
/// password with the cost and salt found in it and compares the two. The
/// answer depends on the two texts alone.
#[verifier::external_body]
fn verify_password(password: &str, hash: &str) -> (r: Result<bool, bcrypt::BcryptError>)
    ensures
        match r {
            Ok(matches) => bcrypt_verify(password@, hash@) == Some(matches),
            Err(_) => bcrypt_verify(password@, hash@) is None,
        },
{
    bcrypt::verify(password, hash)
}

/// Draws a fresh session token.
pub fn new_session_token() -> (token: String)
    ensures
        is_session_token(token@),
{
    random_token()
}

/// What a password check comes to: whether the password matches, or a hash
/// failure where the stored hash could not be read.
pub open spec fn checked(verified: Option<bool>) -> Result<bool, Error> {
    match verified {
        Some(matches) => Ok(matches),
        None => Err(Error::HashFailure),
    }
}

/// Checks a password against a stored hash.
pub fn check_password(password: &str, hash: &str) -> (r: Result<bool, Error>)
    ensures
        r == checked(bcrypt_verify(password@, hash@)),
{
    match verify_password(password, hash) {
        Ok(matches) => Ok(matches),
        Err(_) => Err(Error::HashFailure),
    }
}

/// The first decision on a login: a form with the hidden field filled in
/// is sent away at once, and for any other the user's record is asked for.
pub open spec fn screened(username: Seq<char>, email: Seq<char>) -> LoginActionView {
    if email.len() > 0 {
        LoginActionView::Redirect
    } else {
        LoginActionView::FindUser { username }
    }
}

/// Takes a submitted form and names the first action.
pub fn begin(login: &Login) -> (action: LoginAction)
    ensures
        action@ == screened(login.username@, login.email@),
{
    if login.email.as_str().is_empty() {
        LoginAction::FindUser { username: login.username.clone() }
    } else {
        LoginAction::Redirect
    }
}

/// The decision on a checked password: a session under `token` for the
/// user whose password matched, the way back to the front page for one
/// whose password did not, and the failure where the check failed.
pub open spec fn decided(user: u128, matches: Result<bool, Error>, token: Seq<char>) -> LoginActionView {
    match matches {
        Ok(true) => LoginActionView::CreateSession { user, token },
        Ok(false) => LoginActionView::Redirect,
        Err(error) => LoginActionView::Abort { error },
    }
}

/// Decides on a checked password, with the token that the session gets if
/// one is opened.
pub fn decide(user: u128, matches: Result<bool, Error>, token: String) -> (action: LoginAction)
    ensures
        action@ == decided(user, matches, token@),
{
    match matches {
        Ok(true) => LoginAction::CreateSession { user, token },
        Ok(false) => LoginAction::Redirect,
        Err(error) => LoginAction::Abort { error },
    }
}

/// Takes the store's answer to the question for the user's record, checks
/// the submitted password against the stored hash and decides. A failed
/// query fails the login. A session is opened under a fresh token, drawn
/// only where the password matched.
pub fn user_found(login: &Login, found: Result<UserRecord, Error>) -> (action: LoginAction)
    ensures
        match found {
            Err(error) => action@ == (LoginActionView::Abort { error }),
            Ok(user) => match checked(bcrypt_verify(login.password@, user.hash@)) {
                Ok(true) => action@ matches LoginActionView::CreateSession { user: opened, token }
                    && opened == user.id && is_session_token(token),
                other => action@ == decided(user.id, other, Seq::empty()),
            },
        },
{
    match found {
        Err(error) => LoginAction::Abort { error },
        Ok(user) => {
            match check_password(login.password.as_str(), user.hash.as_str()) {
                Ok(true) => decide(user.id, Ok(true), new_session_token()),
                other => decide(user.id, other, String::new()),
            }
        },
    }
}

/// The last decision on a login: the cookie for the client once the
/// session is kept, and the failure where the store did not keep it.
pub open spec fn granted(token: Seq<char>, created: Result<(), Error>) -> LoginActionView {
    match created {
        Ok(_) => LoginActionView::Grant { cookie: session_cookie(token) },
        Err(error) => LoginActionView::Abort { error },
    }
}

/// Takes the store's answer to the request to keep the session. A session
/// that is kept is signalled to the session cache, and its token goes to
/// the client in a cookie.
pub fn session_created(token: String, created: Result<(), Error>, sessions: &mut SessionCache) -> (action:
    LoginAction)
    ensures
        action@ == granted(token@, created),
        created is Ok ==> final(sessions)@ == old(sessions)@.invalidated(),
        created is Err ==> final(sessions)@ == old(sessions)@,
{
    match created {
        Ok(_) => {
            sessions.invalidate();
            LoginAction::Grant {
                cookie: SessionCookie {
                    name: SESSION,
                    value: token,
                    path: "/",
                    secure: true,
                    http_only: true,
                    same_site_strict: true,
                    max_age_seconds: SESSION_SECONDS,
                },
            }
        },
        Err(error) => LoginAction::Abort { error },
    }
}

} // verus!
