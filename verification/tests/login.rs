use actix_session::{Session, SessionExt};
use actix_web::test::TestRequest;
use actix_session::SessionStatus;
use loonggamedb::login::{
    begin_login, begin_login_with_state, check_state, confirm_stored, logged_out,
    redirect_response, state_key_name, validate, CallbackPayload, CsrfError, SessionWriteError,
};
use loonggamedb::provider::ProviderConfig;
use loonggamedb::session::read_string;

fn fresh_session() -> Session {
    TestRequest::default().to_http_request().get_session()
}

fn config() -> ProviderConfig {
    ProviderConfig::github(
        "client-1".to_string(),
        "secret-1".to_string(),
        "https://example.com/login/callback".to_string(),
        "https://api.example.com/user".to_string(),
    )
    .unwrap()
}

fn payload(code: &str, state: &str) -> CallbackPayload {
    CallbackPayload { code: code.to_string(), state: state.to_string() }
}

#[test]
fn state_key_is_csrf_state() {
    assert_eq!(state_key_name(), "CSRF_state");
}

#[test]
fn begin_login_stores_the_token() {
    let mut session = fresh_session();
    let url = begin_login_with_state(&mut session, &config(), &"abc123".to_string()).unwrap();
    assert_eq!(
        url,
        "https://github.com/login/oauth/authorize?response_type=code&client_id=client-1\
         &state=abc123&redirect_uri=https%3A%2F%2Fexample.com%2Flogin%2Fcallback\
         &scope=user%3Aemail"
    );
    assert_eq!(session.get::<String>("CSRF_state").unwrap(), Some("abc123".to_string()));
    assert_eq!(session.entries().len(), 1);
}

#[test]
fn begin_login_twice_overwrites() {
    let mut session = fresh_session();
    session.insert("other", "kept").unwrap();
    begin_login_with_state(&mut session, &config(), &"first".to_string()).unwrap();
    assert_eq!(session.entries().len(), 2);
    let url = begin_login_with_state(&mut session, &config(), &"second".to_string()).unwrap();
    assert!(url.contains("state=second"));
    assert!(!url.contains("first"));
    assert_eq!(session.get::<String>("CSRF_state").unwrap(), Some("second".to_string()));
    assert_eq!(session.get::<String>("other").unwrap(), Some("kept".to_string()));
    assert_eq!(session.entries().len(), 2);
}

#[test]
fn begin_login_draws_fresh_tokens() {
    let mut session = fresh_session();
    let first_url = begin_login(&mut session, &config()).unwrap();
    let first = session.get::<String>("CSRF_state").unwrap().unwrap();
    let second_url = begin_login(&mut session, &config()).unwrap();
    let second = session.get::<String>("CSRF_state").unwrap().unwrap();
    assert!(!first.is_empty());
    assert_ne!(first, second);
    assert!(first_url.contains(&format!("state={}", first)));
    assert!(second_url.contains(&format!("state={}", second)));
    assert_eq!(session.entries().len(), 1);
}

#[test]
fn begin_login_url_escapes_its_parts() {
    let mut session = fresh_session();
    let config = ProviderConfig::new(
        "my client".to_string(),
        "s".to_string(),
        "https://idp.example.org/authorize?tenant=7".to_string(),
        "https://idp.example.org/token".to_string(),
        "http://localhost:8080/cb".to_string(),
        "https://idp.example.org/me".to_string(),
        "read write".to_string(),
    )
    .unwrap();
    let url = begin_login_with_state(&mut session, &config, &"a b&c".to_string()).unwrap();
    assert_eq!(
        url,
        "https://idp.example.org/authorize?tenant=7&response_type=code&client_id=my+client\
         &state=a+b%26c&redirect_uri=http%3A%2F%2Flocalhost%3A8080%2Fcb&scope=read+write"
    );
    assert_eq!(session.get::<String>("CSRF_state").unwrap(), Some("a b&c".to_string()));
}

#[test]
fn begin_login_fails_on_a_session_that_takes_no_writes() {
    let mut session = fresh_session();
    session.purge();
    let r = begin_login_with_state(&mut session, &config(), &"abc123".to_string());
    assert_eq!(r, Err(SessionWriteError));
    assert_eq!(session.entries().len(), 0);
    assert!(matches!(begin_login(&mut session, &config()), Err(SessionWriteError)));
}

#[test]
fn validate_without_state_is_missing_state() {
    let mut session = fresh_session();
    session.insert("other", "kept").unwrap();
    let r = validate(&mut session, &payload("goodcode", "abc123"));
    assert_eq!(r, Err(CsrfError::MissingState));
    assert_eq!(session.get::<String>("CSRF_state").unwrap(), None);
    assert_eq!(session.get::<String>("other").unwrap(), Some("kept".to_string()));
}

#[test]
fn validate_with_other_state_is_mismatch_and_removes() {
    let mut session = fresh_session();
    begin_login_with_state(&mut session, &config(), &"abc123".to_string()).unwrap();
    let r = validate(&mut session, &payload("goodcode", "wrong"));
    assert_eq!(r, Err(CsrfError::Mismatch));
    assert_eq!(session.get::<String>("CSRF_state").unwrap(), None);
    assert_eq!(session.entries().len(), 0);
}

#[test]
fn validate_compares_exactly() {
    for returned in ["abc12", "abc1234", "ABC123", " abc123", ""] {
        let mut session = fresh_session();
        begin_login_with_state(&mut session, &config(), &"abc123".to_string()).unwrap();
        assert_eq!(
            validate(&mut session, &payload("goodcode", returned)),
            Err(CsrfError::Mismatch)
        );
    }
}

#[test]
fn validate_accepts_the_stored_state_and_removes_it() {
    let mut session = fresh_session();
    session.insert("other", "kept").unwrap();
    begin_login_with_state(&mut session, &config(), &"abc123".to_string()).unwrap();
    let r = validate(&mut session, &payload("goodcode", "abc123"));
    assert_eq!(r, Ok(()));
    assert_eq!(session.get::<String>("CSRF_state").unwrap(), None);
    assert_eq!(session.get::<String>("other").unwrap(), Some("kept".to_string()));
}

#[test]
fn state_cannot_be_replayed_after_success() {
    let mut session = fresh_session();
    begin_login_with_state(&mut session, &config(), &"abc123".to_string()).unwrap();
    assert_eq!(validate(&mut session, &payload("goodcode", "abc123")), Ok(()));
    assert_eq!(
        validate(&mut session, &payload("goodcode", "abc123")),
        Err(CsrfError::MissingState)
    );
}

#[test]
fn state_cannot_be_used_after_a_failed_attempt() {
    let mut session = fresh_session();
    begin_login_with_state(&mut session, &config(), &"abc123".to_string()).unwrap();
    assert_eq!(validate(&mut session, &payload("goodcode", "wrong")), Err(CsrfError::Mismatch));
    assert_eq!(
        validate(&mut session, &payload("goodcode", "abc123")),
        Err(CsrfError::MissingState)
    );
    assert_eq!(
        validate(&mut session, &payload("goodcode", "wrong")),
        Err(CsrfError::MissingState)
    );
}

#[test]
fn an_entry_that_is_no_string_counts_as_missing() {
    let mut session = fresh_session();
    session.insert("CSRF_state", 5).unwrap();
    assert_eq!(read_string(&session, "CSRF_state"), None);
    assert_eq!(validate(&mut session, &payload("goodcode", "5")), Err(CsrfError::MissingState));
    assert_eq!(session.entries().len(), 0);
}

#[test]
fn read_string_returns_what_was_stored() {
    let session = fresh_session();
    assert_eq!(read_string(&session, "k"), None);
    session.insert("k", "v \"quoted\" \u{e9}").unwrap();
    assert_eq!(read_string(&session, "k"), Some("v \"quoted\" \u{e9}".to_string()));
    assert_eq!(read_string(&session, "K"), None);
}

#[test]
fn check_state_cases() {
    assert_eq!(check_state(None, &"abc".to_string()), Err(CsrfError::MissingState));
    assert_eq!(check_state(None, &"".to_string()), Err(CsrfError::MissingState));
    assert_eq!(check_state(Some("abc".to_string()), &"abd".to_string()), Err(CsrfError::Mismatch));
    assert_eq!(check_state(Some("".to_string()), &"abc".to_string()), Err(CsrfError::Mismatch));
    assert_eq!(check_state(Some("abc".to_string()), &"abc".to_string()), Ok(()));
    assert_eq!(check_state(Some("".to_string()), &"".to_string()), Ok(()));
}

#[test]
fn confirm_stored_cases() {
    let token = "abc123".to_string();
    let url = "https://example.com/a".to_string();
    assert_eq!(confirm_stored(true, Some(token.clone()), &token, url.clone()), Ok(url.clone()));
    assert_eq!(
        confirm_stored(false, Some(token.clone()), &token, url.clone()),
        Err(SessionWriteError)
    );
    assert_eq!(confirm_stored(true, None, &token, url.clone()), Err(SessionWriteError));
    assert_eq!(
        confirm_stored(true, Some("other".to_string()), &token, url.clone()),
        Err(SessionWriteError)
    );
}

#[test]
fn responses_of_the_first_step() {
    let (status, body) = redirect_response("https://example.com/a");
    assert_eq!(status, 200);
    assert_eq!(body.code, 0);
    assert_eq!(body.message, "Success");
    assert_eq!(body.url, Some("https://example.com/a"));
    let (status, failed) = SessionWriteError.response();
    assert_eq!(status, 500);
    assert_eq!(failed.code, 999);
    assert_eq!(failed.message, "Failed to insert CSRF state.");
}

#[test]
fn response_to_a_logout() {
    let (status, body) = logged_out();
    assert_eq!(status, 200);
    assert_eq!(body.code, 0);
    assert_eq!(body.message, "Logout success!");
}

#[test]
fn begin_login_succeeds_for_any_state_text() {
    let tokens = ["", " ", "a\"b\\c", "line\nbreak\ttab\u{0}", "\u{e9}\u{4e2d}\u{1f600}", "{\"k\":1}"];
    for token in tokens {
        let mut session = fresh_session();
        let r = begin_login_with_state(&mut session, &config(), &token.to_string());
        assert!(r.is_ok());
        assert_eq!(session.get::<String>("CSRF_state").unwrap(), Some(token.to_string()));
        assert_eq!(validate(&mut session, &payload("goodcode", token)), Ok(()));
        assert_eq!(session.entries().len(), 0);
    }
}

#[test]
fn validate_on_a_session_flagged_for_deletion() {
    let mut session = fresh_session();
    begin_login_with_state(&mut session, &config(), &"abc123".to_string()).unwrap();
    session.purge();
    assert_eq!(
        validate(&mut session, &payload("goodcode", "abc123")),
        Err(CsrfError::MissingState)
    );
    assert_eq!(session.entries().len(), 0);
    assert_eq!(session.status(), SessionStatus::Purged);
    assert_eq!(
        validate(&mut session, &payload("goodcode", "abc123")),
        Err(CsrfError::MissingState)
    );
}

#[test]
fn validate_leaves_the_flag_of_a_live_session_alone() {
    let mut session = fresh_session();
    begin_login_with_state(&mut session, &config(), &"abc123".to_string()).unwrap();
    assert_eq!(validate(&mut session, &payload("goodcode", "wrong")), Err(CsrfError::Mismatch));
    assert_ne!(session.status(), SessionStatus::Purged);
    session.insert("later", "kept").unwrap();
    assert_eq!(session.get::<String>("later").unwrap(), Some("kept".to_string()));
}

#[test]
fn provider_config_checks_its_endpoints() {
    assert!(ProviderConfig::github(
        "c".to_string(),
        "s".to_string(),
        "not a url".to_string(),
        "https://api.example.com/user".to_string()
    )
    .is_none());
    assert!(ProviderConfig::new(
        "c".to_string(),
        "s".to_string(),
        "authorize".to_string(),
        "https://idp.example.org/token".to_string(),
        "https://example.com/cb".to_string(),
        "https://idp.example.org/me".to_string(),
        "x".to_string()
    )
    .is_none());
    assert!(ProviderConfig::new(
        "c".to_string(),
        "s".to_string(),
        "https://idp.example.org/authorize".to_string(),
        "".to_string(),
        "https://example.com/cb".to_string(),
        "https://idp.example.org/me".to_string(),
        "x".to_string()
    )
    .is_none());
    let config = config();
    assert_eq!(config.client_id(), "client-1");
    assert_eq!(config.client_secret(), "secret-1");
    assert_eq!(config.auth_url(), "https://github.com/login/oauth/authorize");
    assert_eq!(config.token_url(), "https://github.com/login/oauth/access_token");
    assert_eq!(config.redirect_url(), "https://example.com/login/callback");
    assert_eq!(config.resource_url(), "https://api.example.com/user");
    assert_eq!(config.scope(), "user:email");
    assert_eq!(
        config.authorization_url("s1"),
        "https://github.com/login/oauth/authorize?response_type=code&client_id=client-1\
         &state=s1&redirect_uri=https%3A%2F%2Fexample.com%2Flogin%2Fcallback&scope=user%3Aemail"
    );
}

fn is_url_safe(c: char) -> bool {
    c.is_ascii_alphanumeric() || c == '-' || c == '_'
}

#[test]
fn fresh_state_is_a_token_of_fixed_shape() {
    let mut seen = Vec::new();
    for _ in 0..200 {
        let token = ProviderConfig::fresh_state();
        assert_eq!(token.chars().count(), 22);
        assert!(token.chars().all(is_url_safe));
        assert!(!seen.contains(&token));
        seen.push(token);
    }
}

#[test]
fn begin_login_stores_a_token_of_fixed_shape() {
    let mut session = fresh_session();
    let url = begin_login(&mut session, &config()).unwrap();
    let token = session.get::<String>("CSRF_state").unwrap().unwrap();
    assert_eq!(token.chars().count(), 22);
    assert!(token.chars().all(is_url_safe));
    assert!(url.contains(&format!("&state={}&", token)));
}
