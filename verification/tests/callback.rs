use actix_session::{Session, SessionExt};
use actix_web::test::TestRequest;
use loonggamedb::callback::{
    advance, identity_from, token_from, AccessToken, IdentityError, LoginAction, LoginEvent,
    LoginOutcome, LoginState, ResolvedIdentity, TokenError, UPSTREAM_TIMEOUT_SECS,
};
use loonggamedb::login::{begin_login_with_state, CallbackPayload, SessionWriteError};
use loonggamedb::provider::ProviderConfig;
use loonggamedb::response_code::ResponseCode;

fn session_waiting_for(token: &str) -> Session {
    let mut session = TestRequest::default().to_http_request().get_session();
    let config = ProviderConfig::github(
        "client-1".to_string(),
        "secret-1".to_string(),
        "https://example.com/login/callback".to_string(),
        "https://api.example.com/user".to_string(),
    )
    .unwrap();
    begin_login_with_state(&mut session, &config, &token.to_string()).unwrap();
    session
}

fn callback(code: &str, state: &str) -> LoginEvent {
    LoginEvent::Callback(CallbackPayload { code: code.to_string(), state: state.to_string() })
}

fn respond(action: &LoginAction) -> Option<LoginOutcome> {
    match action {
        LoginAction::Respond(outcome) => Some(*outcome),
        _ => None,
    }
}

#[test]
fn scenario_login_succeeds() {
    let mut session = session_waiting_for("abc123");
    let (state, action) =
        advance(LoginState::AwaitingCallback, callback("goodcode", "abc123"), &mut session);
    assert_eq!(state, LoginState::ExchangingToken);
    assert!(matches!(&action, LoginAction::ExchangeCode(code) if code == "goodcode"));
    assert_eq!(session.get::<String>("CSRF_state").unwrap(), None);

    let event = LoginEvent::TokenExchanged(token_from(Some("tok-1".to_string())));
    let (state, action) = advance(state, event, &mut session);
    assert_eq!(state, LoginState::ResolvingIdentity);
    assert!(matches!(&action, LoginAction::ResolveIdentity(token) if token.secret() == "tok-1"));

    let event = LoginEvent::IdentityResolved(identity_from(200, Some("alice".to_string())));
    let (state, action) = advance(state, event, &mut session);
    assert_eq!(state, LoginState::BindingIdentity);
    assert!(matches!(&action, LoginAction::BindIdentity(identity) if identity.login == "alice"));

    let (state, action) = advance(state, LoginEvent::IdentityBound(Ok(())), &mut session);
    assert_eq!(state, LoginState::Finished);
    let outcome = respond(&action).unwrap();
    assert_eq!(outcome, LoginOutcome::LoggedIn);
    assert_eq!(outcome.http_status(), 200);
    assert_eq!(outcome.response().code, 0);
    assert_eq!(outcome.response().message, "OK");
}

#[test]
fn scenario_wrong_state_is_a_violation() {
    let mut session = session_waiting_for("abc123");
    let (state, action) =
        advance(LoginState::AwaitingCallback, callback("goodcode", "wrong"), &mut session);
    assert_eq!(state, LoginState::Finished);
    let outcome = respond(&action).unwrap();
    assert_eq!(outcome, LoginOutcome::CsrfViolation);
    assert_eq!(outcome.http_status(), 401);
    assert_eq!(outcome.response().code, 1001);
    assert_eq!(outcome.response().message, "CSRF state verification failed.");
    assert_eq!(session.get::<String>("CSRF_state").unwrap(), None);
    assert_eq!(session.entries().len(), 0);
}

#[test]
fn scenario_token_exchange_fails() {
    let mut session = session_waiting_for("abc123");
    let (state, _) =
        advance(LoginState::AwaitingCallback, callback("goodcode", "abc123"), &mut session);
    let (state, action) =
        advance(state, LoginEvent::TokenExchanged(token_from(None)), &mut session);
    assert_eq!(state, LoginState::Finished);
    let outcome = respond(&action).unwrap();
    assert_eq!(outcome, LoginOutcome::ExchangeFailed);
    assert_eq!(outcome.http_status(), 500);
    assert_eq!(outcome.response().code, 999);
    assert_eq!(outcome.response().message, "Failed to get 'token' from OAuth response.");
    assert_eq!(session.entries().len(), 0);
}

#[test]
fn scenario_identity_has_no_login() {
    let mut session = session_waiting_for("abc123");
    let (state, _) =
        advance(LoginState::AwaitingCallback, callback("goodcode", "abc123"), &mut session);
    let (state, _) = advance(
        state,
        LoginEvent::TokenExchanged(token_from(Some("tok-1".to_string()))),
        &mut session,
    );
    let (state, action) =
        advance(state, LoginEvent::IdentityResolved(identity_from(200, None)), &mut session);
    assert_eq!(state, LoginState::Finished);
    let outcome = respond(&action).unwrap();
    assert_eq!(outcome, LoginOutcome::ResolutionFailed);
    assert_eq!(outcome.http_status(), 500);
    assert_eq!(outcome.response().code, 999);
    assert_eq!(outcome.response().message, "Failed to get 'username' from OAuth response.");
    assert_eq!(session.entries().len(), 0);
}

#[test]
fn callback_without_pending_state_is_a_violation() {
    let mut session = TestRequest::default().to_http_request().get_session();
    let (state, action) =
        advance(LoginState::AwaitingCallback, callback("goodcode", "abc123"), &mut session);
    assert_eq!(state, LoginState::Finished);
    assert_eq!(respond(&action), Some(LoginOutcome::CsrfViolation));
}

#[test]
fn binding_failure_ends_the_attempt() {
    let mut session = session_waiting_for("abc123");
    let (state, action) = advance(
        LoginState::BindingIdentity,
        LoginEvent::IdentityBound(Err(SessionWriteError)),
        &mut session,
    );
    assert_eq!(state, LoginState::Finished);
    let outcome = respond(&action).unwrap();
    assert_eq!(outcome, LoginOutcome::SessionWriteFailed);
    assert_eq!(outcome.http_status(), 500);
    assert_eq!(outcome.response_code(), ResponseCode::SystemInternalError);
    assert_eq!(outcome.message_text(), "Failed to bind identity to session.");
    assert_eq!(session.get::<String>("CSRF_state").unwrap(), Some("abc123".to_string()));
}

#[test]
fn events_out_of_turn_end_the_attempt() {
    let states = [
        LoginState::AwaitingCallback,
        LoginState::ExchangingToken,
        LoginState::ResolvingIdentity,
        LoginState::BindingIdentity,
        LoginState::Finished,
    ];
    for state in states {
        let mut session = session_waiting_for("abc123");
        if state != LoginState::ExchangingToken {
            let event = LoginEvent::TokenExchanged(Ok(AccessToken::new("t".to_string())));
            let (next, action) = advance(state, event, &mut session);
            assert_eq!(next, LoginState::Finished);
            assert_eq!(respond(&action), Some(LoginOutcome::OutOfOrder));
        }
        if state != LoginState::ResolvingIdentity {
            let event =
                LoginEvent::IdentityResolved(Ok(ResolvedIdentity { login: "alice".to_string() }));
            let (next, action) = advance(state, event, &mut session);
            assert_eq!(next, LoginState::Finished);
            assert_eq!(respond(&action), Some(LoginOutcome::OutOfOrder));
        }
        if state != LoginState::BindingIdentity {
            let (next, action) = advance(state, LoginEvent::IdentityBound(Ok(())), &mut session);
            assert_eq!(next, LoginState::Finished);
            assert_eq!(respond(&action), Some(LoginOutcome::OutOfOrder));
        }
        assert_eq!(session.get::<String>("CSRF_state").unwrap(), Some("abc123".to_string()));
        if state != LoginState::AwaitingCallback {
            let (next, action) = advance(state, callback("goodcode", "abc123"), &mut session);
            assert_eq!(next, LoginState::Finished);
            assert_eq!(respond(&action), Some(LoginOutcome::OutOfOrder));
            assert_eq!(session.get::<String>("CSRF_state").unwrap(), None);
        }
    }
}

#[test]
fn out_of_order_response() {
    let outcome = LoginOutcome::OutOfOrder;
    assert_eq!(outcome.http_status(), 500);
    assert_eq!(outcome.response().code, 999);
    assert_eq!(outcome.response().message, "Login steps out of order.");
}

#[test]
fn token_from_cases() {
    assert!(matches!(token_from(None), Err(TokenError::ExchangeFailed)));
    assert!(matches!(token_from(Some("tok".to_string())), Ok(token) if token.secret() == "tok"));
    assert!(matches!(token_from(Some("".to_string())), Ok(token) if token.secret() == ""));
}

#[test]
fn identity_from_cases() {
    for status in [0u16, 199, 300, 404, 500, 65535] {
        assert!(matches!(
            identity_from(status, Some("alice".to_string())),
            Err(IdentityError::ResolutionFailed)
        ));
        assert!(matches!(identity_from(status, None), Err(IdentityError::ResolutionFailed)));
    }
    for status in [200u16, 201, 204, 299] {
        assert!(matches!(
            identity_from(status, Some("alice".to_string())),
            Ok(identity) if identity.login == "alice"
        ));
        assert!(matches!(identity_from(status, None), Err(IdentityError::ResolutionFailed)));
    }
}

#[test]
fn upstream_calls_are_bounded() {
    assert_eq!(UPSTREAM_TIMEOUT_SECS, 10);
}
