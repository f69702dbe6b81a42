use vstd::prelude::*;

use crate::commands::service_failure::ServiceFailure;

pub use crate::commands::login::session_token::{
    is_session_token, issue_session_token, signed_session_token, SessionClaims, SessionKey,
    SESSION_TOKEN_VALIDITY_SECS,
};

verus! {

/// Why no session token was issued.
#[derive(Debug, PartialEq, Eq, Structural)]
pub enum PasswordAuthenticateUserError {
    IncorrectPassword,
    UnknownError,
}

/// Where a password login stands.
pub enum PasswordAuthenticateUserStep {
    /// Waiting for the user store to check the password.
    AwaitingLogin,
    Finished,
}

/// What the user store answered.
pub enum PasswordAuthenticateUserEvent {
    LoginChecked(Result<bool, ServiceFailure>),
}

/// What the caller is to do next.
pub enum PasswordAuthenticateUserAction {
    /// Ask the user store whether `password` is the password of the user `ra`.
    Login { ra: String, password: String },
    /// The flow is over with this result.
    Finish(Result<String, PasswordAuthenticateUserError>),
}

impl PasswordAuthenticateUserStep {
    /// Whether the flow in this state waits for an answer of the kind of `event`.
    pub open spec fn awaits(self, event: PasswordAuthenticateUserEvent) -> bool {
        self is AwaitingLogin
    }

    /// One move of the flow: from this state, on `event`, to `next`, asking for `action`.
    pub open spec fn transition(
        self,
        event: PasswordAuthenticateUserEvent,
        next: PasswordAuthenticateUserStep,
        action: PasswordAuthenticateUserAction,
    ) -> bool {
        &&& self is AwaitingLogin
        &&& next is Finished
        &&& match event {
            PasswordAuthenticateUserEvent::LoginChecked(Err(_)) => action
                == PasswordAuthenticateUserAction::Finish(
                Err(PasswordAuthenticateUserError::UnknownError),
            ),
            PasswordAuthenticateUserEvent::LoginChecked(Ok(false)) => action
                == PasswordAuthenticateUserAction::Finish(
                Err(PasswordAuthenticateUserError::IncorrectPassword),
            ),
            PasswordAuthenticateUserEvent::LoginChecked(Ok(true)) => action matches PasswordAuthenticateUserAction::Finish(Ok(token)) && is_session_token(token@),
        }
    }

    /// Whether the flow in this state waits for an answer of the kind of `event`.
    pub fn is_waiting_for(&self, event: &PasswordAuthenticateUserEvent) -> (r: bool)
        ensures
            r == self.awaits(*event),
    {
        match self {
            PasswordAuthenticateUserStep::AwaitingLogin => true,
            PasswordAuthenticateUserStep::Finished => false,
        }
    }

    /// Moves the flow on the user store's answer: a refused password is an
    /// `IncorrectPassword`, a store failure an `UnknownError`, and an accepted
    /// password gets a session token.
    pub fn step(self, event: PasswordAuthenticateUserEvent) -> (r: (
        PasswordAuthenticateUserStep,
        PasswordAuthenticateUserAction,
    ))
        requires
            self.awaits(event),
        ensures
            self.transition(event, r.0, r.1),
    {
        let result = match event {
            PasswordAuthenticateUserEvent::LoginChecked(Err(_)) => Err(
                PasswordAuthenticateUserError::UnknownError,
            ),
            PasswordAuthenticateUserEvent::LoginChecked(Ok(false)) => Err(
                PasswordAuthenticateUserError::IncorrectPassword,
            ),
            PasswordAuthenticateUserEvent::LoginChecked(Ok(true)) => issue_session_token(),
        };
        (PasswordAuthenticateUserStep::Finished, PasswordAuthenticateUserAction::Finish(result))
    }
}

/// Starts a password login of the user `ra`: the user store checks the password first.
pub fn password_authenticate_user(ra: &str, password: &str) -> (r: (
    PasswordAuthenticateUserStep,
    PasswordAuthenticateUserAction,
))
    ensures
        r.0 is AwaitingLogin,
        r.1 matches PasswordAuthenticateUserAction::Login { ra: a, password: p } && a@ == ra@
            && p@ == password@,
{
    (
        PasswordAuthenticateUserStep::AwaitingLogin,
        PasswordAuthenticateUserAction::Login {
            ra: String::from_str(ra),
            password: String::from_str(password),
        },
    )
}

/// A session token is issued exactly when the user store accepted the
/// password: an accepted password always ends with a session token, valid for
/// `SESSION_TOKEN_VALIDITY_SECS` seconds; a refused one with `IncorrectPassword`;
/// a failed store call with `UnknownError`.
pub proof fn law_token_exactly_for_accepted_password(
    step: PasswordAuthenticateUserStep,
    event: PasswordAuthenticateUserEvent,
    next: PasswordAuthenticateUserStep,
    action: PasswordAuthenticateUserAction,
)
    requires
        step.awaits(event),
        step.transition(event, next, action),
    ensures
        next is Finished,
        (action matches PasswordAuthenticateUserAction::Finish(Ok(_))) == (event
            matches PasswordAuthenticateUserEvent::LoginChecked(Ok(true))),
        event matches PasswordAuthenticateUserEvent::LoginChecked(Ok(true)) ==> (action
            matches PasswordAuthenticateUserAction::Finish(Ok(token)) && is_session_token(token@)),
        (action == PasswordAuthenticateUserAction::Finish(
            Err(PasswordAuthenticateUserError::IncorrectPassword),
        )) == (event matches PasswordAuthenticateUserEvent::LoginChecked(Ok(false))),
        (action == PasswordAuthenticateUserAction::Finish(
            Err(PasswordAuthenticateUserError::UnknownError),
        )) == (event matches PasswordAuthenticateUserEvent::LoginChecked(Err(_))),
{
}

/// A login that has started takes every answer of the user store: an accepted
/// password, a refused one and a failed call alike; once finished it takes no answer.
pub proof fn law_login_takes_every_answer_it_asks_for(
    step: PasswordAuthenticateUserStep,
    event: PasswordAuthenticateUserEvent,
    next: PasswordAuthenticateUserStep,
    action: PasswordAuthenticateUserAction,
)
    ensures
        step is AwaitingLogin ==> forall|r: Result<bool, ServiceFailure>|
            #[trigger] step.awaits(PasswordAuthenticateUserEvent::LoginChecked(r)),
        step.awaits(event) && step.transition(event, next, action) ==> forall|
            e: PasswordAuthenticateUserEvent,
        | !next.awaits(e),
{
}

} // verus!
