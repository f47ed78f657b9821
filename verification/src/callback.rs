//! The steps that follow the provider's callback, as a state machine: the
//! callback's state is checked, the code is exchanged for an access token,
//! the token is used to resolve the caller's identity, and the identity is
//! bound to the session. The machine decides; whoever drives it carries out
//! each action and reports how it went.

use crate::login::{csrf_verdict, pending_state, state_consumed, validate, CallbackPayload};
use crate::login::SessionWriteError;
use crate::response_body::BasicResponse;
use crate::response_code::ResponseCode;
use actix_session::Session;
use vstd::prelude::*;

verus! {

/// The code-for-token exchange did not give a token.
#[derive(Clone, Copy, Debug, PartialEq, Eq, Structural)]
pub enum TokenError {
    ExchangeFailed,
}

/// The provider's resource endpoint did not give an identity.
#[derive(Clone, Copy, Debug, PartialEq, Eq, Structural)]
pub enum IdentityError {
    ResolutionFailed,
}

/// A bearer secret obtained from the provider. It is held only while the
/// identity is being resolved and is never part of a response.
pub struct AccessToken {
    secret: String,
}

impl View for AccessToken {
    type V = Seq<char>;

    closed spec fn view(&self) -> Seq<char> {
        self.secret@
    }
}

impl AccessToken {
    pub fn new(secret: String) -> (token: AccessToken)
        ensures
            token@ == secret@,
    {
        AccessToken { secret }
    }

    /// The secret itself, for the one request that presents it.
    pub fn secret(&self) -> (secret: &str)
        ensures
            secret@ == self@,
    {
        self.secret.as_str()
    }
}

/// The canonical login name that the provider reports for the caller.
#[derive(Debug)]
pub struct ResolvedIdentity {
    pub login: String,
}

/// The longest that either call to the provider may take, in seconds. A
/// call that takes longer counts as failed.
pub const UPSTREAM_TIMEOUT_SECS: u64 = 10;

/// Whether an HTTP status reports success.
pub open spec fn is_success(status: u16) -> bool {
    200 <= status < 300
}

/// What the token endpoint's answer means for the attempt: a token where it
/// gave one, a failed exchange where it did not, for whatever reason.
pub fn token_from(secret: Option<String>) -> (r: Result<AccessToken, TokenError>)
    ensures
        r.is_ok() == secret.is_some(),
        r matches Ok(token) ==> secret matches Some(given) && token@ == given@,
{
    match secret {
        Some(given) => Ok(AccessToken::new(given)),
        None => Err(TokenError::ExchangeFailed),
    }
}

/// What the resource endpoint's answer means for the attempt: an identity
/// where the status reports success and the body names a login, a failed
/// resolution otherwise.
pub fn identity_from(status: u16, login: Option<String>) -> (r: Result<
    ResolvedIdentity,
    IdentityError,
>)
    ensures
        r.is_ok() == (is_success(status) && login.is_some()),
        r matches Ok(identity) ==> login == Some(identity.login),
{
    if status < 200 || status >= 300 {
        return Err(IdentityError::ResolutionFailed);
    }
    match login {
        Some(name) => Ok(ResolvedIdentity { login: name }),
        None => Err(IdentityError::ResolutionFailed),
    }
}

/// Where a login attempt stands.
#[derive(Clone, Copy, Debug, PartialEq, Eq, Structural)]
pub enum LoginState {
    AwaitingCallback,
    ExchangingToken,
    ResolvingIdentity,
    BindingIdentity,
    Finished,
}

/// How a login attempt ended.
#[derive(Clone, Copy, Debug, PartialEq, Eq, Structural)]
pub enum LoginOutcome {
    LoggedIn,
    CsrfViolation,
    ExchangeFailed,
    ResolutionFailed,
    SessionWriteFailed,
    OutOfOrder,
}

impl LoginOutcome {
    /// The result code of the response: success for a login, a violation
    /// for a state that was turned down, an internal error for the rest.
    pub open spec fn code(self) -> ResponseCode {
        match self {
            LoginOutcome::LoggedIn => ResponseCode::Success,
            LoginOutcome::CsrfViolation => ResponseCode::LoginCsrfViolation,
            _ => ResponseCode::SystemInternalError,
        }
    }

    /// The HTTP status of the response.
    pub open spec fn status(self) -> u16 {
        match self {
            LoginOutcome::LoggedIn => 200,
            LoginOutcome::CsrfViolation => 401,
            _ => 500,
        }
    }

    /// The message of the response.
    pub open spec fn message(self) -> Seq<char> {
        match self {
            LoginOutcome::LoggedIn => "OK"@,
            LoginOutcome::CsrfViolation => "CSRF state verification failed."@,
            LoginOutcome::ExchangeFailed => "Failed to get 'token' from OAuth response."@,
            LoginOutcome::ResolutionFailed => "Failed to get 'username' from OAuth response."@,
            LoginOutcome::SessionWriteFailed => "Failed to bind identity to session."@,
            LoginOutcome::OutOfOrder => "Login steps out of order."@,
        }
    }

    pub fn response_code(self) -> (code: ResponseCode)
        ensures
            code == self.code(),
    {
        match self {
            LoginOutcome::LoggedIn => ResponseCode::Success,
            LoginOutcome::CsrfViolation => ResponseCode::LoginCsrfViolation,
            _ => ResponseCode::SystemInternalError,
        }
    }

    pub fn http_status(self) -> (status: u16)
        ensures
            status == self.status(),
    {
        match self {
            LoginOutcome::LoggedIn => 200,
            LoginOutcome::CsrfViolation => 401,
            _ => 500,
        }
    }

    pub fn message_text(self) -> (text: &'static str)
        ensures
            text@ == self.message(),
    {
        match self {
            LoginOutcome::LoggedIn => "OK",
            LoginOutcome::CsrfViolation => "CSRF state verification failed.",
            LoginOutcome::ExchangeFailed => "Failed to get 'token' from OAuth response.",
            LoginOutcome::ResolutionFailed => "Failed to get 'username' from OAuth response.",
            LoginOutcome::SessionWriteFailed => "Failed to bind identity to session.",
            LoginOutcome::OutOfOrder => "Login steps out of order.",
        }
    }

    /// The body of the response.
    pub fn response(self) -> (body: BasicResponse<'static>)
        ensures
            body.code == self.code().value(),
            body.message@ == self.message(),
    {
        BasicResponse::new(self.response_code(), self.message_text())
    }

    /// Only a login is reported as success: every other outcome carries an
    /// error code and an error status.
    pub proof fn only_login_reports_success(self)
        ensures
            self.code() == ResponseCode::Success <==> self == LoginOutcome::LoggedIn,
            self.code().value() == 0 <==> self == LoginOutcome::LoggedIn,
            self.status() == 200 <==> self == LoginOutcome::LoggedIn,
            self == LoginOutcome::CsrfViolation <==> self.code()
                == ResponseCode::LoginCsrfViolation,
    {
    }
}

/// What happened outside the machine.
pub enum LoginEvent {
    Callback(CallbackPayload),
    TokenExchanged(Result<AccessToken, TokenError>),
    IdentityResolved(Result<ResolvedIdentity, IdentityError>),
    IdentityBound(Result<(), SessionWriteError>),
}

/// What the driver has to do next.
pub enum LoginAction {
    ExchangeCode(String),
    ResolveIdentity(AccessToken),
    BindIdentity(ResolvedIdentity),
    Respond(LoginOutcome),
}

/// An event as plain values.
pub enum LoginEventView {
    Callback { code: Seq<char>, state: Seq<char> },
    TokenExchanged(Result<Seq<char>, TokenError>),
    IdentityResolved(Result<Seq<char>, IdentityError>),
    IdentityBound(Result<(), SessionWriteError>),
}

/// An action as plain values.
pub enum LoginActionView {
    ExchangeCode(Seq<char>),
    ResolveIdentity(Seq<char>),
    BindIdentity(Seq<char>),
    Respond(LoginOutcome),
}

impl View for LoginEvent {
    type V = LoginEventView;

    open spec fn view(&self) -> LoginEventView {
        match *self {
            LoginEvent::Callback(payload) => LoginEventView::Callback {
                code: payload.code@,
                state: payload.state@,
            },
            LoginEvent::TokenExchanged(Ok(token)) => LoginEventView::TokenExchanged(Ok(token@)),
            LoginEvent::TokenExchanged(Err(e)) => LoginEventView::TokenExchanged(Err(e)),
            LoginEvent::IdentityResolved(Ok(identity)) => LoginEventView::IdentityResolved(
                Ok(identity.login@),
            ),
            LoginEvent::IdentityResolved(Err(e)) => LoginEventView::IdentityResolved(Err(e)),
            LoginEvent::IdentityBound(result) => LoginEventView::IdentityBound(result),
        }
    }
}

impl View for LoginAction {
    type V = LoginActionView;

    open spec fn view(&self) -> LoginActionView {
        match *self {
            LoginAction::ExchangeCode(code) => LoginActionView::ExchangeCode(code@),
            LoginAction::ResolveIdentity(token) => LoginActionView::ResolveIdentity(token@),
            LoginAction::BindIdentity(identity) => LoginActionView::BindIdentity(identity.login@),
            LoginAction::Respond(outcome) => LoginActionView::Respond(outcome),
        }
    }
}

/// The step that ends an attempt with `outcome`.
pub open spec fn finish(outcome: LoginOutcome) -> (LoginState, LoginActionView) {
    (LoginState::Finished, LoginActionView::Respond(outcome))
}

/// The machine's one step: the next state and the action to carry out, for
/// a state, an event and the state value that the session waits for. Each
/// stage accepts only its own event, a failure ends the attempt, and so does
/// any event that arrives out of turn.
pub open spec fn next_step(
    state: LoginState,
    event: LoginEventView,
    pending: Option<Seq<char>>,
) -> (LoginState, LoginActionView) {
    match (state, event) {
        (LoginState::AwaitingCallback, LoginEventView::Callback { code, state: returned }) => {
            if csrf_verdict(pending, returned).is_ok() {
                (LoginState::ExchangingToken, LoginActionView::ExchangeCode(code))
            } else {
                finish(LoginOutcome::CsrfViolation)
            }
        },
        (LoginState::ExchangingToken, LoginEventView::TokenExchanged(Ok(token))) => (
            LoginState::ResolvingIdentity,
            LoginActionView::ResolveIdentity(token),
        ),
        (LoginState::ExchangingToken, LoginEventView::TokenExchanged(Err(_))) => finish(
            LoginOutcome::ExchangeFailed,
        ),
        (LoginState::ResolvingIdentity, LoginEventView::IdentityResolved(Ok(login))) => (
            LoginState::BindingIdentity,
            LoginActionView::BindIdentity(login),
        ),
        (LoginState::ResolvingIdentity, LoginEventView::IdentityResolved(Err(_))) => finish(
            LoginOutcome::ResolutionFailed,
        ),
        (LoginState::BindingIdentity, LoginEventView::IdentityBound(Ok(_))) => finish(
            LoginOutcome::LoggedIn,
        ),
        (LoginState::BindingIdentity, LoginEventView::IdentityBound(Err(_))) => finish(
            LoginOutcome::SessionWriteFailed,
        ),
        _ => finish(LoginOutcome::OutOfOrder),
    }
}

/// The step that ends an attempt with `outcome`.
fn finished(outcome: LoginOutcome) -> (r: (LoginState, LoginAction))
    ensures
        (r.0, r.1@) == finish(outcome),
{
    (LoginState::Finished, LoginAction::Respond(outcome))
}

/// Takes one step of the machine. A callback uses up the session's state
/// value, in whatever state it arrives; no other event touches the session.
pub fn advance(state: LoginState, event: LoginEvent, session: &mut Session) -> (r: (
    LoginState,
    LoginAction,
))
    ensures
        (r.0, r.1@) == next_step(state, event@, pending_state(*old(session))),
        event is Callback ==> state_consumed(*old(session), *final(session)),
        !(event is Callback) ==> *final(session) == *old(session),
{
    match event {
        LoginEvent::Callback(payload) => {
            let verdict = validate(session, &payload);
            match state {
                LoginState::AwaitingCallback => match verdict {
                    Ok(_) => (LoginState::ExchangingToken, LoginAction::ExchangeCode(payload.code)),
                    Err(_) => finished(LoginOutcome::CsrfViolation),
                },
                _ => finished(LoginOutcome::OutOfOrder),
            }
        },
        LoginEvent::TokenExchanged(result) => match state {
            LoginState::ExchangingToken => match result {
                Ok(token) => (LoginState::ResolvingIdentity, LoginAction::ResolveIdentity(token)),
                Err(_) => finished(LoginOutcome::ExchangeFailed),
            },
            _ => finished(LoginOutcome::OutOfOrder),
        },
        LoginEvent::IdentityResolved(result) => match state {
            LoginState::ResolvingIdentity => match result {
                Ok(identity) => (LoginState::BindingIdentity, LoginAction::BindIdentity(identity)),
                Err(_) => finished(LoginOutcome::ResolutionFailed),
            },
            _ => finished(LoginOutcome::OutOfOrder),
        },
        LoginEvent::IdentityBound(result) => match state {
            LoginState::BindingIdentity => match result {
                Ok(_) => finished(LoginOutcome::LoggedIn),
                Err(_) => finished(LoginOutcome::SessionWriteFailed),
            },
            _ => finished(LoginOutcome::OutOfOrder),
        },
    }
}

/// How far an attempt has come: the number of steps that succeeded.
pub open spec fn stage(state: LoginState) -> nat {
    match state {
        LoginState::AwaitingCallback => 0,
        LoginState::ExchangingToken => 1,
        LoginState::ResolvingIdentity => 2,
        LoginState::BindingIdentity => 3,
        LoginState::Finished => 4,
    }
}

/// The machine never goes back: a step either ends the attempt or moves it
/// to the very next stage. A finished attempt stays finished, and answers
/// every further event as out of turn.
pub proof fn steps_only_go_forward(
    state: LoginState,
    event: LoginEventView,
    pending: Option<Seq<char>>,
)
    ensures
        next_step(state, event, pending).0 == LoginState::Finished || stage(
            next_step(state, event, pending).0,
        ) == stage(state) + 1,
        next_step(state, event, pending).0 == LoginState::Finished <==> next_step(
            state,
            event,
            pending,
        ).1 is Respond,
        state == LoginState::Finished ==> next_step(state, event, pending) == finish(
            LoginOutcome::OutOfOrder,
        ),
{
}

/// A callback whose state is turned down, for either reason, ends the
/// attempt as a violation: no code is handed out for exchange.
pub proof fn rejected_state_ends_attempt(
    code: Seq<char>,
    returned: Seq<char>,
    pending: Option<Seq<char>>,
)
    requires
        csrf_verdict(pending, returned).is_err(),
    ensures
        next_step(
            LoginState::AwaitingCallback,
            LoginEventView::Callback { code, state: returned },
            pending,
        ) == finish(LoginOutcome::CsrfViolation),
{
}

/// The event is a callback that returns the very state the session waits for.
pub open spec fn accepted_callback(event: LoginEventView, pending: Option<Seq<char>>) -> bool {
    match event {
        LoginEventView::Callback { code, state: returned } => pending == Some(returned),
        _ => false,
    }
}

/// The event reports a token.
pub open spec fn token_given(event: LoginEventView) -> bool {
    match event {
        LoginEventView::TokenExchanged(Ok(_)) => true,
        _ => false,
    }
}

/// The event reports an identity.
pub open spec fn identity_given(event: LoginEventView) -> bool {
    match event {
        LoginEventView::IdentityResolved(Ok(_)) => true,
        _ => false,
    }
}

/// The event reports that the identity was bound.
pub open spec fn binding_done(event: LoginEventView) -> bool {
    match event {
        LoginEventView::IdentityBound(Ok(_)) => true,
        _ => false,
    }
}

/// Each action has one cause: a code is handed out only for a callback
/// whose state was accepted, a token is used only after an exchange that
/// gave it, an identity is bound only after a resolution that gave it, and
/// success is reported only after the binding went through.
pub proof fn actions_have_one_cause(
    state: LoginState,
    event: LoginEventView,
    pending: Option<Seq<char>>,
)
    ensures
        match next_step(state, event, pending).1 {
            LoginActionView::ExchangeCode(code) => {
                &&& state == LoginState::AwaitingCallback
                &&& event matches LoginEventView::Callback { code: given, state: returned }
                &&& given == code
                &&& pending == Some(returned)
            },
            LoginActionView::ResolveIdentity(token) => {
                &&& state == LoginState::ExchangingToken
                &&& event == LoginEventView::TokenExchanged(Ok(token))
            },
            LoginActionView::BindIdentity(login) => {
                &&& state == LoginState::ResolvingIdentity
                &&& event == LoginEventView::IdentityResolved(Ok(login))
            },
            LoginActionView::Respond(LoginOutcome::LoggedIn) => {
                &&& state == LoginState::BindingIdentity
                &&& binding_done(event)
            },
            LoginActionView::Respond(_) => true,
        },
{
}

/// A whole attempt: the machine started afresh and fed the events in order.
/// The result is the state reached and the actions given, one per event.
pub open spec fn run(events: Seq<LoginEventView>, pending: Option<Seq<char>>) -> (
    LoginState,
    Seq<LoginActionView>,
)
    decreases events.len(),
{
    if events.len() == 0 {
        (LoginState::AwaitingCallback, Seq::empty())
    } else {
        let before = run(events.drop_last(), pending);
        let step = next_step(before.0, events.last(), pending);
        (step.0, before.1.push(step.1))
    }
}

/// The first `count` events are the successes of the first `count` stages.
pub open spec fn on_course(
    events: Seq<LoginEventView>,
    pending: Option<Seq<char>>,
    count: nat,
) -> bool {
    &&& count <= events.len()
    &&& count <= 4
    &&& count >= 1 ==> accepted_callback(events[0], pending)
    &&& count >= 2 ==> token_given(events[1])
    &&& count >= 3 ==> identity_given(events[2])
    &&& count >= 4 ==> binding_done(events[3])
}

/// An attempt that has not ended has succeeded at every stage so far.
proof fn unfinished_run_is_on_course(events: Seq<LoginEventView>, pending: Option<Seq<char>>)
    ensures
        run(events, pending).1.len() == events.len(),
        run(events, pending).0 != LoginState::Finished ==> {
            &&& stage(run(events, pending).0) == events.len()
            &&& on_course(events, pending, events.len())
        },
    decreases events.len(),
{
    if events.len() > 0 {
        let shorter = events.drop_last();
        unfinished_run_is_on_course(shorter, pending);
        let before = run(shorter, pending);
        steps_only_go_forward(before.0, events.last(), pending);
        actions_have_one_cause(before.0, events.last(), pending);
        if run(events, pending).0 != LoginState::Finished {
            assert(before.0 != LoginState::Finished);
            assert(forall|i: int| 0 <= i < shorter.len() ==> shorter[i] == events[i]);
        }
    }
}

/// No login without every step: an attempt whose last action reports
/// success took exactly four events, the callback with the state that the
/// session waited for, a token, an identity and the binding. An attempt
/// whose last action binds an identity took exactly the first three, and
/// binds the identity that was resolved.
pub proof fn login_needs_every_step(events: Seq<LoginEventView>, pending: Option<Seq<char>>)
    requires
        events.len() > 0,
    ensures
        run(events, pending).1.len() == events.len(),
        run(events, pending).1.last() == LoginActionView::Respond(LoginOutcome::LoggedIn) ==> {
            &&& events.len() == 4
            &&& on_course(events, pending, 4)
        },
        run(events, pending).1.last() matches LoginActionView::BindIdentity(login) ==> {
            &&& events.len() == 3
            &&& on_course(events, pending, 3)
            &&& events[2] == LoginEventView::IdentityResolved(Ok(login))
        },
{
    let shorter = events.drop_last();
    unfinished_run_is_on_course(shorter, pending);
    unfinished_run_is_on_course(events, pending);
    let before = run(shorter, pending);
    actions_have_one_cause(before.0, events.last(), pending);
    assert(run(events, pending).1.last() == next_step(before.0, events.last(), pending).1);
    assert(forall|i: int| 0 <= i < shorter.len() ==> shorter[i] == events[i]);
}

} // verus!
