use vstd::prelude::*;

use crate::commands::service_failure::ServiceFailure;
use crate::services::domain::user::User;

verus! {

/// Why a user was not registered.
#[derive(Debug, PartialEq, Eq, Structural)]
pub enum RegisterUserErrors {
    UserExists,
    InvalidCode,
    UnknownError,
}

/// Where the registration of `user` stands, between two service calls.
pub enum RegisterUserStep {
    /// Waiting to learn whether the code mailed to the user's address is valid.
    AwaitingCodeValidation { user: User },
    /// Waiting to learn whether a user with the user's address exists.
    AwaitingUserLookup { user: User },
    /// Waiting for the user to be stored.
    AwaitingSave,
    Finished,
}

/// What a service answered to the last action.
pub enum RegisterUserEvent {
    CodeValidated(Result<bool, ServiceFailure>),
    UserLookedUp(Result<bool, ServiceFailure>),
    UserSaved(Result<(), ServiceFailure>),
}

/// What the caller is to do next.
pub enum RegisterUserAction {
    /// Ask the validation store whether `code` was issued for `email`.
    ValidateCode { email: String, code: String },
    /// Ask the user store whether a user with `email` exists.
    CheckUserExists { email: String },
    /// Store `user`.
    SaveUser { user: User },
    /// The flow is over with this result.
    Finish(Result<(), RegisterUserErrors>),
}

/// The end of the flow with `result`.
pub open spec fn register_user_ends(
    next: RegisterUserStep,
    action: RegisterUserAction,
    result: Result<(), RegisterUserErrors>,
) -> bool {
    &&& next is Finished
    &&& action == RegisterUserAction::Finish(result)
}

/// The state and action with which the registration of `user` with `code` starts.
pub open spec fn register_user_begins(
    code: Seq<char>,
    user: User,
    step: RegisterUserStep,
    action: RegisterUserAction,
) -> bool {
    &&& step == RegisterUserStep::AwaitingCodeValidation { user }
    &&& action matches RegisterUserAction::ValidateCode { email, code: c }
    &&& email@ == user.email@
    &&& c@ == code
}

impl RegisterUserStep {
    /// Whether the flow in this state waits for an answer of the kind of `event`.
    pub open spec fn awaits(self, event: RegisterUserEvent) -> bool {
        match self {
            RegisterUserStep::AwaitingCodeValidation { .. } => event is CodeValidated,
            RegisterUserStep::AwaitingUserLookup { .. } => event is UserLookedUp,
            RegisterUserStep::AwaitingSave => event is UserSaved,
            RegisterUserStep::Finished => false,
        }
    }

    /// One move of the flow: from this state, on `event`, to `next`, asking for `action`.
    pub open spec fn transition(
        self,
        event: RegisterUserEvent,
        next: RegisterUserStep,
        action: RegisterUserAction,
    ) -> bool {
        match self {
            RegisterUserStep::AwaitingCodeValidation { user } => match event {
                RegisterUserEvent::CodeValidated(Err(_)) => register_user_ends(
                    next,
                    action,
                    Err(RegisterUserErrors::UnknownError),
                ),
                RegisterUserEvent::CodeValidated(Ok(false)) => register_user_ends(
                    next,
                    action,
                    Err(RegisterUserErrors::InvalidCode),
                ),
                RegisterUserEvent::CodeValidated(Ok(true)) => {
                    &&& next == RegisterUserStep::AwaitingUserLookup { user }
                    &&& action matches RegisterUserAction::CheckUserExists { email }
                    &&& email@ == user.email@
                },
                _ => false,
            },
            RegisterUserStep::AwaitingUserLookup { user } => match event {
                RegisterUserEvent::UserLookedUp(Err(_)) => register_user_ends(
                    next,
                    action,
                    Err(RegisterUserErrors::UnknownError),
                ),
                RegisterUserEvent::UserLookedUp(Ok(true)) => register_user_ends(
                    next,
                    action,
                    Err(RegisterUserErrors::UserExists),
                ),
                RegisterUserEvent::UserLookedUp(Ok(false)) => {
                    &&& next is AwaitingSave
                    &&& action == RegisterUserAction::SaveUser { user }
                },
                _ => false,
            },
            RegisterUserStep::AwaitingSave => match event {
                RegisterUserEvent::UserSaved(Err(_)) => register_user_ends(
                    next,
                    action,
                    Err(RegisterUserErrors::UnknownError),
                ),
                RegisterUserEvent::UserSaved(Ok(())) => register_user_ends(next, action, Ok(())),
                _ => false,
            },
            RegisterUserStep::Finished => false,
        }
    }

    /// Whether the flow in this state waits for an answer of the kind of `event`.
    pub fn is_waiting_for(&self, event: &RegisterUserEvent) -> (r: bool)
        ensures
            r == self.awaits(*event),
    {
        match (self, event) {
            (RegisterUserStep::AwaitingCodeValidation { .. }, RegisterUserEvent::CodeValidated(_)) => true,
            (RegisterUserStep::AwaitingUserLookup { .. }, RegisterUserEvent::UserLookedUp(_)) => true,
            (RegisterUserStep::AwaitingSave, RegisterUserEvent::UserSaved(_)) => true,
            _ => false,
        }
    }

    /// Moves the flow on the answer `event` to the action it waited for.
    pub fn step(self, event: RegisterUserEvent) -> (r: (RegisterUserStep, RegisterUserAction))
        requires
            self.awaits(event),
        ensures
            self.transition(event, r.0, r.1),
    {
        match self {
            RegisterUserStep::AwaitingCodeValidation { user } => match event {
                RegisterUserEvent::CodeValidated(Err(_)) => (
                    RegisterUserStep::Finished,
                    RegisterUserAction::Finish(Err(RegisterUserErrors::UnknownError)),
                ),
                RegisterUserEvent::CodeValidated(Ok(false)) => (
                    RegisterUserStep::Finished,
                    RegisterUserAction::Finish(Err(RegisterUserErrors::InvalidCode)),
                ),
                RegisterUserEvent::CodeValidated(Ok(true)) => {
                    let email = user.email.clone();
                    (
                        RegisterUserStep::AwaitingUserLookup { user },
                        RegisterUserAction::CheckUserExists { email },
                    )
                },
                _ => {
                    proof {
                        assert(false);
                    }
                    (RegisterUserStep::Finished, RegisterUserAction::Finish(Ok(())))
                },
            },
            RegisterUserStep::AwaitingUserLookup { user } => match event {
                RegisterUserEvent::UserLookedUp(Err(_)) => (
                    RegisterUserStep::Finished,
                    RegisterUserAction::Finish(Err(RegisterUserErrors::UnknownError)),
                ),
                RegisterUserEvent::UserLookedUp(Ok(true)) => (
                    RegisterUserStep::Finished,
                    RegisterUserAction::Finish(Err(RegisterUserErrors::UserExists)),
                ),
                RegisterUserEvent::UserLookedUp(Ok(false)) => (
                    RegisterUserStep::AwaitingSave,
                    RegisterUserAction::SaveUser { user },
                ),
                _ => {
                    proof {
                        assert(false);
                    }
                    (RegisterUserStep::Finished, RegisterUserAction::Finish(Ok(())))
                },
            },
            RegisterUserStep::AwaitingSave => match event {
                RegisterUserEvent::UserSaved(Err(_)) => (
                    RegisterUserStep::Finished,
                    RegisterUserAction::Finish(Err(RegisterUserErrors::UnknownError)),
                ),
                RegisterUserEvent::UserSaved(Ok(())) => (
                    RegisterUserStep::Finished,
                    RegisterUserAction::Finish(Ok(())),
                ),
                _ => {
                    proof {
                        assert(false);
                    }
                    (RegisterUserStep::Finished, RegisterUserAction::Finish(Ok(())))
                },
            },
            RegisterUserStep::Finished => {
                proof {
                    assert(false);
                }
                (RegisterUserStep::Finished, RegisterUserAction::Finish(Ok(())))
            },
        }
    }
}

/// Starts the registration of `user` with the code `hashed_code`: the code
/// is validated first.
pub fn register_user(hashed_code: &str, user: User) -> (r: (RegisterUserStep, RegisterUserAction))
    ensures
        register_user_begins(hashed_code@, user, r.0, r.1),
{
    let email = user.email.clone();
    (
        RegisterUserStep::AwaitingCodeValidation { user },
        RegisterUserAction::ValidateCode { email, code: String::from_str(hashed_code) },
    )
}

/// Whether `event` reports a failed service call.
pub open spec fn register_user_failure(event: RegisterUserEvent) -> bool {
    ||| event matches RegisterUserEvent::CodeValidated(Err(_))
    ||| event matches RegisterUserEvent::UserLookedUp(Err(_))
    ||| event matches RegisterUserEvent::UserSaved(Err(_))
}

/// A run of the registration of `user` with `code`: it starts as
/// `register_user_begins` says and moves by `transition` on each answer in
/// `events`, each of the kind the flow waited for.
pub open spec fn is_register_user_run(
    code: Seq<char>,
    user: User,
    steps: Seq<RegisterUserStep>,
    events: Seq<RegisterUserEvent>,
    actions: Seq<RegisterUserAction>,
) -> bool {
    &&& steps.len() == events.len() + 1
    &&& actions.len() == events.len() + 1
    &&& register_user_begins(code, user, steps[0], actions[0])
    &&& forall|i: int|
        #![trigger events[i]]
        0 <= i < events.len() ==> steps[i].awaits(events[i]) && steps[i].transition(
            events[i],
            steps[i + 1],
            actions[i + 1],
        )
}

/// The result that a registration ends with: `UnknownError` when a service
/// call failed, `InvalidCode` when the code was refused, `UserExists` when the
/// address is taken, `Ok` otherwise.
pub open spec fn expected_register_user_result(events: Seq<RegisterUserEvent>) -> Result<
    (),
    RegisterUserErrors,
> {
    if exists|i: int| 0 <= i < events.len() && #[trigger] register_user_failure(events[i]) {
        Err(RegisterUserErrors::UnknownError)
    } else if events[0] matches RegisterUserEvent::CodeValidated(Ok(false)) {
        Err(RegisterUserErrors::InvalidCode)
    } else if events[1] matches RegisterUserEvent::UserLookedUp(Ok(true)) {
        Err(RegisterUserErrors::UserExists)
    } else {
        Ok(())
    }
}

/// A registration ends after one to three service answers, with the result
/// that `expected_register_user_result` gives. The user is stored only when
/// the code was valid and no user with the address existed, and what is
/// stored is the user the registration began with.
pub proof fn law_register_user_run(
    code: Seq<char>,
    user: User,
    steps: Seq<RegisterUserStep>,
    events: Seq<RegisterUserEvent>,
    actions: Seq<RegisterUserAction>,
)
    requires
        is_register_user_run(code, user, steps, events, actions),
        steps.last() is Finished,
    ensures
        1 <= events.len() <= 3,
        actions.last() == RegisterUserAction::Finish(expected_register_user_result(events)),
        forall|i: int|
            0 <= i < actions.len() && #[trigger] actions[i] is SaveUser ==> {
                &&& i == 2
                &&& events[0] matches RegisterUserEvent::CodeValidated(Ok(true))
                &&& events[1] matches RegisterUserEvent::UserLookedUp(Ok(false))
                &&& actions[i] == RegisterUserAction::SaveUser { user }
            },
{
    let n = events.len() as int;
    assert(steps[0] is AwaitingCodeValidation);
    if n >= 1 {
        assert(steps[0].awaits(events[0]) && steps[0].transition(events[0], steps[1], actions[1]));
    }
    if n >= 2 {
        assert(steps[1].awaits(events[1]) && steps[1].transition(events[1], steps[2], actions[2]));
    }
    if n >= 3 {
        assert(steps[2].awaits(events[2]) && steps[2].transition(events[2], steps[3], actions[3]));
    }
    if n >= 4 {
        assert(steps[3].awaits(events[3]));
    }
    if exists|i: int| 0 <= i < events.len() && #[trigger] register_user_failure(events[i]) {
        let i = choose|i: int| 0 <= i < events.len() && #[trigger] register_user_failure(events[i]);
        assert(i == n - 1);
    } else {
        if n >= 1 {
            assert(!register_user_failure(events[0]));
        }
        if n >= 2 {
            assert(!register_user_failure(events[1]));
        }
        if n >= 3 {
            assert(!register_user_failure(events[2]));
        }
    }
}

/// The flow never refuses an answer that it asked for: from its start it takes
/// every answer of the code check; after asking whether the user exists it
/// takes "no", "yes" and a failure alike; after asking to store the user it
/// takes every answer of the store; once finished it takes no answer.
pub proof fn law_register_user_takes_every_answer_it_asks_for(
    code: Seq<char>,
    user: User,
    step: RegisterUserStep,
    event: RegisterUserEvent,
    next: RegisterUserStep,
    action: RegisterUserAction,
)
    ensures
        register_user_begins(code, user, step, action) ==> forall|r: Result<bool, ServiceFailure>|
            #[trigger] step.awaits(RegisterUserEvent::CodeValidated(r)),
        step.awaits(event) && step.transition(event, next, action) ==> {
            &&& action is CheckUserExists ==> forall|r: Result<bool, ServiceFailure>|
                #[trigger] next.awaits(RegisterUserEvent::UserLookedUp(r))
            &&& action is SaveUser ==> forall|r: Result<(), ServiceFailure>|
                #[trigger] next.awaits(RegisterUserEvent::UserSaved(r))
            &&& action is Finish ==> forall|e: RegisterUserEvent| !next.awaits(e)
        },
{
}

/// A valid code for a new address is followed by the answers "no such user"
/// and "user stored", each taken in turn: the user it began with is stored and
/// the flow ends `Ok`.
pub proof fn law_register_user_success_run(
    code: Seq<char>,
    user: User,
    s0: RegisterUserStep,
    a0: RegisterUserAction,
    s1: RegisterUserStep,
    a1: RegisterUserAction,
    s2: RegisterUserStep,
    a2: RegisterUserAction,
    s3: RegisterUserStep,
    a3: RegisterUserAction,
)
    requires
        register_user_begins(code, user, s0, a0),
        s0.transition(RegisterUserEvent::CodeValidated(Ok(true)), s1, a1),
        s1.transition(RegisterUserEvent::UserLookedUp(Ok(false)), s2, a2),
        s2.transition(RegisterUserEvent::UserSaved(Ok(())), s3, a3),
    ensures
        s0.awaits(RegisterUserEvent::CodeValidated(Ok(true))),
        s1.awaits(RegisterUserEvent::UserLookedUp(Ok(false))),
        s2.awaits(RegisterUserEvent::UserSaved(Ok(()))),
        a2 == (RegisterUserAction::SaveUser { user }),
        a3 == RegisterUserAction::Finish(Ok(())),
        s3 is Finished,
{
}

} // verus!
