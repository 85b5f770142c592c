use hawk::cache::{SessionCache, SessionLookup};
use hawk::error::Error;
use hawk::login::{
    begin, check_password, decide, new_session_token, session_created, user_found, Login,
    LoginAction, SessionCookie, UserRecord, SESSION_SECONDS, TOKEN_LENGTH,
};

fn form(username: &str, password: &str, email: &str) -> Login {
    Login {
        username: String::from(username),
        password: String::from(password),
        email: String::from(email),
    }
}

#[test]
fn login_with_hidden_field_filled_is_sent_away() {
    assert_eq!(begin(&form("ada", "secret", "bot@example.org")), LoginAction::Redirect);
}

#[test]
fn login_asks_for_the_user() {
    assert_eq!(
        begin(&form("ada", "secret", "")),
        LoginAction::FindUser { username: String::from("ada") }
    );
}

#[test]
fn session_token_has_sixty_four_safe_characters() {
    assert_eq!(TOKEN_LENGTH, 64);
    for _ in 0..16 {
        let token = new_session_token();
        assert_eq!(token.chars().count(), 64);
        assert!(token.chars().all(|c| c.is_ascii_alphanumeric() || c == '_' || c == '-'));
    }
    assert_ne!(new_session_token(), new_session_token());
}

#[test]
fn password_is_checked_against_the_hash() {
    let hash = bcrypt::hash("secret", 4).unwrap();
    assert_eq!(check_password("secret", &hash), Ok(true));
    assert_eq!(check_password("Secret", &hash), Ok(false));
    assert_eq!(check_password("", &hash), Ok(false));
}

#[test]
fn unreadable_hash_is_a_hash_failure() {
    assert_eq!(check_password("secret", "not a hash"), Err(Error::HashFailure));
    assert_eq!(check_password("secret", ""), Err(Error::HashFailure));
}

#[test]
fn decision_on_a_checked_password() {
    assert_eq!(
        decide(7, Ok(true), String::from("tok")),
        LoginAction::CreateSession { user: 7, token: String::from("tok") }
    );
    assert_eq!(decide(7, Ok(false), String::from("tok")), LoginAction::Redirect);
    assert_eq!(
        decide(7, Err(Error::HashFailure), String::from("tok")),
        LoginAction::Abort { error: Error::HashFailure }
    );
}

#[test]
fn found_user_with_matching_password_gets_a_session() {
    let record = UserRecord { id: 42, hash: bcrypt::hash("secret", 4).unwrap() };
    match user_found(&form("ada", "secret", ""), Ok(record)) {
        LoginAction::CreateSession { user, token } => {
            assert_eq!(user, 42);
            assert_eq!(token.len(), 64);
        }
        other => panic!("{:?}", other),
    }
}

#[test]
fn found_user_with_wrong_password_is_sent_away() {
    let record = UserRecord { id: 42, hash: bcrypt::hash("secret", 4).unwrap() };
    assert_eq!(user_found(&form("ada", "guess", ""), Ok(record)), LoginAction::Redirect);
}

#[test]
fn failed_lookup_fails_the_login() {
    assert_eq!(
        user_found(&form("ada", "secret", ""), Err(Error::StoreFailure)),
        LoginAction::Abort { error: Error::StoreFailure }
    );
    let record = UserRecord { id: 42, hash: String::from("garbage") };
    assert_eq!(
        user_found(&form("ada", "secret", ""), Ok(record)),
        LoginAction::Abort { error: Error::HashFailure }
    );
}

#[test]
fn kept_session_is_granted_and_signalled() {
    let mut sessions = SessionCache::new();
    assert_eq!(sessions.is_session_valid("tok", || Ok(false)), Ok(false));
    let action = session_created(String::from("tok"), Ok(()), &mut sessions);
    assert_eq!(SESSION_SECONDS, 7 * 24 * 60 * 60);
    assert_eq!(
        action,
        LoginAction::Grant {
            cookie: SessionCookie {
                name: "hawk-session",
                value: String::from("tok"),
                path: "/",
                secure: true,
                http_only: true,
                same_site_strict: true,
                max_age_seconds: 604800,
            }
        }
    );
    assert_eq!(sessions.is_session_valid("tok", || Ok(true)), Ok(true));
}

#[test]
fn session_that_is_not_kept_is_not_granted() {
    let mut sessions = SessionCache::new();
    assert_eq!(sessions.is_session_valid("tok", || Ok(false)), Ok(false));
    let action = session_created(String::from("tok"), Err(Error::StoreFailure), &mut sessions);
    assert_eq!(action, LoginAction::Abort { error: Error::StoreFailure });
    assert_eq!(sessions.lookup("tok"), SessionLookup::Hit(false));
}
