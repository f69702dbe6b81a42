use vstd::prelude::*;

use crate::commands::service_failure::ServiceFailure;
use crate::services::domain::mail::MailAddressValidationService;
use crate::services::domain::validation::ValidationRequest;
use crate::services::infra::mail::mailbox_parses;

verus! {

/// Why a registration code was not sent.
#[derive(Debug, PartialEq, Eq, Structural)]
pub enum CreateRegistrationRequestErrors {
    UnauthorizedEmail,
    UnknownError,
}

/// Where a registration request stands, between two service calls.
pub enum CreateRegistrationRequestStep {
    /// Waiting to learn whether `email` already has a request in flight.
    AwaitingInFlightCheck { email: String },
    /// Waiting for the mail with the code of `request` to be sent.
    AwaitingMailDelivery { request: ValidationRequest },
    /// Waiting for the request to be stored.
    AwaitingSave,
    Finished,
}

/// What a service answered to the last action.
pub enum CreateRegistrationRequestEvent {
    InFlightChecked(Result<bool, ServiceFailure>),
    MailSent(Result<(), ServiceFailure>),
    RequestSaved(Result<(), ServiceFailure>),
}

/// What the caller is to do next.
pub enum CreateRegistrationRequestAction {
    /// Ask the validation store whether `email` has a recent request.
    CheckInFlight { email: String },
    /// Mail `message` under `subject` to `email`.
    SendMail { email: String, subject: String, message: String },
    /// Store `request`.
    SaveRequest { request: ValidationRequest },
    /// The flow is over with this result.
    Finish(Result<(), CreateRegistrationRequestErrors>),
}

/// The subject of the mail that carries a registration code.
pub open spec fn code_mail_subject() -> Seq<char> {
    "Código Tamanduauth"@
}

/// The body of the mail that carries the registration code `code`.
pub open spec fn code_mail_message(code: Seq<char>) -> Seq<char> {
    "Seu código Tamanduauth é: "@ + code
}

/// The state and action with which a request for `email` starts, given
/// whether the address service accepted `email`.
pub open spec fn create_request_begins(
    email: Seq<char>,
    authorized: bool,
    step: CreateRegistrationRequestStep,
    action: CreateRegistrationRequestAction,
) -> bool {
    if authorized {
        &&& step matches CreateRegistrationRequestStep::AwaitingInFlightCheck { email: e } && e@ == email
        &&& action matches CreateRegistrationRequestAction::CheckInFlight { email: e } && e@ == email
    } else {
        &&& step is Finished
        &&& action == CreateRegistrationRequestAction::Finish(
            Err(CreateRegistrationRequestErrors::UnauthorizedEmail),
        )
    }
}

/// The end of the flow with `result`.
pub open spec fn create_request_ends(
    next: CreateRegistrationRequestStep,
    action: CreateRegistrationRequestAction,
    result: Result<(), CreateRegistrationRequestErrors>,
) -> bool {
    &&& next is Finished
    &&& action == CreateRegistrationRequestAction::Finish(result)
}

impl CreateRegistrationRequestStep {
    /// Whether the flow in this state waits for an answer of the kind of `event`.
    pub open spec fn awaits(self, event: CreateRegistrationRequestEvent) -> bool {
        match self {
            CreateRegistrationRequestStep::AwaitingInFlightCheck { .. } => event is InFlightChecked,
            CreateRegistrationRequestStep::AwaitingMailDelivery { .. } => event is MailSent,
            CreateRegistrationRequestStep::AwaitingSave => event is RequestSaved,
            CreateRegistrationRequestStep::Finished => false,
        }
    }

    /// One move of the flow: from this state, on `event`, to `next`, asking for `action`.
    pub open spec fn transition(
        self,
        event: CreateRegistrationRequestEvent,
        next: CreateRegistrationRequestStep,
        action: CreateRegistrationRequestAction,
    ) -> bool {
        match self {
            CreateRegistrationRequestStep::AwaitingInFlightCheck { email } => match event {
                CreateRegistrationRequestEvent::InFlightChecked(Err(_)) => create_request_ends(
                    next,
                    action,
                    Err(CreateRegistrationRequestErrors::UnknownError),
                ),
                CreateRegistrationRequestEvent::InFlightChecked(Ok(true)) => create_request_ends(
                    next,
                    action,
                    Ok(()),
                ),
                CreateRegistrationRequestEvent::InFlightChecked(Ok(false)) => {
                    &&& next matches CreateRegistrationRequestStep::AwaitingMailDelivery { request }
                    &&& request.email@ == email@
                    &&& request.is_fresh()
                    &&& action matches CreateRegistrationRequestAction::SendMail {
                        email: to,
                        subject,
                        message,
                    }
                    &&& to@ == email@
                    &&& subject@ == code_mail_subject()
                    &&& message@ == code_mail_message(request.hashed_code@)
                },
                _ => false,
            },
            CreateRegistrationRequestStep::AwaitingMailDelivery { request } => match event {
                CreateRegistrationRequestEvent::MailSent(Err(_)) => create_request_ends(
                    next,
                    action,
                    Err(CreateRegistrationRequestErrors::UnknownError),
                ),
                CreateRegistrationRequestEvent::MailSent(Ok(())) => {
                    &&& next is AwaitingSave
                    &&& action == CreateRegistrationRequestAction::SaveRequest { request }
                },
                _ => false,
            },
            CreateRegistrationRequestStep::AwaitingSave => match event {
                CreateRegistrationRequestEvent::RequestSaved(Err(_)) => create_request_ends(
                    next,
                    action,
                    Err(CreateRegistrationRequestErrors::UnknownError),
                ),
                CreateRegistrationRequestEvent::RequestSaved(Ok(())) => create_request_ends(
                    next,
                    action,
                    Ok(()),
                ),
                _ => false,
            },
            CreateRegistrationRequestStep::Finished => false,
        }
    }

    /// Whether the flow in this state waits for an answer of the kind of `event`.
    pub fn is_waiting_for(&self, event: &CreateRegistrationRequestEvent) -> (r: bool)
        ensures
            r == self.awaits(*event),
    {
        match (self, event) {
            (
                CreateRegistrationRequestStep::AwaitingInFlightCheck { .. },
                CreateRegistrationRequestEvent::InFlightChecked(_),
            ) => true,
            (
                CreateRegistrationRequestStep::AwaitingMailDelivery { .. },
                CreateRegistrationRequestEvent::MailSent(_),
            ) => true,
            (CreateRegistrationRequestStep::AwaitingSave, CreateRegistrationRequestEvent::RequestSaved(_)) => true,
            _ => false,
        }
    }

    /// Moves the flow on the answer `event` to the action it waited for.
    pub fn step(self, event: CreateRegistrationRequestEvent) -> (r: (
        CreateRegistrationRequestStep,
        CreateRegistrationRequestAction,
    ))
        requires
            self.awaits(event),
        ensures
            self.transition(event, r.0, r.1),
    {
        match self {
            CreateRegistrationRequestStep::AwaitingInFlightCheck { email } => match event {
                CreateRegistrationRequestEvent::InFlightChecked(Err(_)) => (
                    CreateRegistrationRequestStep::Finished,
                    CreateRegistrationRequestAction::Finish(
                        Err(CreateRegistrationRequestErrors::UnknownError),
                    ),
                ),
                CreateRegistrationRequestEvent::InFlightChecked(Ok(true)) => (
                    CreateRegistrationRequestStep::Finished,
                    CreateRegistrationRequestAction::Finish(Ok(())),
                ),
                CreateRegistrationRequestEvent::InFlightChecked(Ok(false)) => {
                    let to = email.clone();
                    let request = ValidationRequest::new(email);
                    let message = code_mail(&request.hashed_code);
                    (
                        CreateRegistrationRequestStep::AwaitingMailDelivery { request },
                        CreateRegistrationRequestAction::SendMail {
                            email: to,
                            subject: code_mail_subject_text(),
                            message,
                        },
                    )
                },
                _ => {
                    proof {
                        assert(false);
                    }
                    (CreateRegistrationRequestStep::Finished, CreateRegistrationRequestAction::Finish(Ok(())))
                },
            },
            CreateRegistrationRequestStep::AwaitingMailDelivery { request } => match event {
                CreateRegistrationRequestEvent::MailSent(Err(_)) => (
                    CreateRegistrationRequestStep::Finished,
                    CreateRegistrationRequestAction::Finish(
                        Err(CreateRegistrationRequestErrors::UnknownError),
                    ),
                ),
                CreateRegistrationRequestEvent::MailSent(Ok(())) => (
                    CreateRegistrationRequestStep::AwaitingSave,
                    CreateRegistrationRequestAction::SaveRequest { request },
                ),
                _ => {
                    proof {
                        assert(false);
                    }
                    (CreateRegistrationRequestStep::Finished, CreateRegistrationRequestAction::Finish(Ok(())))
                },
            },
            CreateRegistrationRequestStep::AwaitingSave => match event {
                CreateRegistrationRequestEvent::RequestSaved(Err(_)) => (
                    CreateRegistrationRequestStep::Finished,
                    CreateRegistrationRequestAction::Finish(
                        Err(CreateRegistrationRequestErrors::UnknownError),
                    ),
                ),
                CreateRegistrationRequestEvent::RequestSaved(Ok(())) => (
                    CreateRegistrationRequestStep::Finished,
                    CreateRegistrationRequestAction::Finish(Ok(())),
                ),
                _ => {
                    proof {
                        assert(false);
                    }
                    (CreateRegistrationRequestStep::Finished, CreateRegistrationRequestAction::Finish(Ok(())))
                },
            },
            CreateRegistrationRequestStep::Finished => {
                proof {
                    assert(false);
                }
                (CreateRegistrationRequestStep::Finished, CreateRegistrationRequestAction::Finish(Ok(())))
            },
        }
    }
}

/// The subject line of the code mail.
fn code_mail_subject_text() -> (subject: String)
    ensures
        subject@ == code_mail_subject(),
{
    let subject = "Código Tamanduauth";
    String::from_str(subject)
}

/// The body of the code mail for `code`.
fn code_mail(code: &String) -> (message: String)
    ensures
        message@ == code_mail_message(code@),
{
    let mut message = String::from_str("Seu código Tamanduauth é: ");
    message.append(code.as_str());
    message
}

/// The start of a registration request for `email`, once it is known whether
/// the address service accepts `email`.
pub fn begin_registration_request(email_authorized: bool, email: &str) -> (r: (
    CreateRegistrationRequestStep,
    CreateRegistrationRequestAction,
))
    ensures
        create_request_begins(email@, email_authorized, r.0, r.1),
{
    if !email_authorized {
        return (
            CreateRegistrationRequestStep::Finished,
            CreateRegistrationRequestAction::Finish(
                Err(CreateRegistrationRequestErrors::UnauthorizedEmail),
            ),
        );
    }
    (
        CreateRegistrationRequestStep::AwaitingInFlightCheck { email: String::from_str(email) },
        CreateRegistrationRequestAction::CheckInFlight { email: String::from_str(email) },
    )
}

/// Starts a registration request for `email`: an address that `addr_svc`
/// refuses ends the flow at once with `UnauthorizedEmail`, before any other
/// service is asked; an accepted address is next checked for a request in flight.
pub fn create_registration_request<A: MailAddressValidationService>(
    addr_svc: &A,
    email: &str,
) -> (r: (CreateRegistrationRequestStep, CreateRegistrationRequestAction))
    ensures
        create_request_begins(email@, addr_svc.accepts(email@), r.0, r.1),
{
    let authorized = addr_svc.is_valid(email);
    begin_registration_request(authorized, email)
}

/// Whether `event` reports a failed service call.
pub open spec fn create_request_failure(event: CreateRegistrationRequestEvent) -> bool {
    ||| event matches CreateRegistrationRequestEvent::InFlightChecked(Err(_))
    ||| event matches CreateRegistrationRequestEvent::MailSent(Err(_))
    ||| event matches CreateRegistrationRequestEvent::RequestSaved(Err(_))
}

/// A run of the flow for `email`: it starts as `create_request_begins` says
/// and moves by `transition` on each answer in `events`, each of the kind the
/// flow waited for; `steps[i]` and `actions[i]` are the state and the action
/// after `i` answers.
pub open spec fn is_create_request_run(
    email: Seq<char>,
    authorized: bool,
    steps: Seq<CreateRegistrationRequestStep>,
    events: Seq<CreateRegistrationRequestEvent>,
    actions: Seq<CreateRegistrationRequestAction>,
) -> bool {
    &&& steps.len() == events.len() + 1
    &&& actions.len() == events.len() + 1
    &&& create_request_begins(email, authorized, steps[0], actions[0])
    &&& forall|i: int|
        #![trigger events[i]]
        0 <= i < events.len() ==> steps[i].awaits(events[i]) && steps[i].transition(
            events[i],
            steps[i + 1],
            actions[i + 1],
        )
}

/// The result that a registration request ends with: `UnauthorizedEmail` for a
/// refused address, `UnknownError` when any service call failed, `Ok` otherwise.
pub open spec fn expected_create_request_result(
    authorized: bool,
    events: Seq<CreateRegistrationRequestEvent>,
) -> Result<(), CreateRegistrationRequestErrors> {
    if !authorized {
        Err(CreateRegistrationRequestErrors::UnauthorizedEmail)
    } else if exists|i: int| 0 <= i < events.len() && #[trigger] create_request_failure(events[i]) {
        Err(CreateRegistrationRequestErrors::UnknownError)
    } else {
        Ok(())
    }
}

/// A registration request ends after at most three service answers, with the
/// result that `expected_create_request_result` gives for what `addr_svc`
/// answers of the address: a refused address is answered `UnauthorizedEmail`
/// before any other service is asked, any failed service call gives
/// `UnknownError`, and everything else succeeds. An accepted address is first
/// checked for a request in flight; a code is mailed only when none is in
/// flight, and a fresh request is stored only after the mail with its code went
/// out; every check, mail and request is for the same address.
pub proof fn law_create_request_run<A: MailAddressValidationService>(
    addr_svc: A,
    email: Seq<char>,
    steps: Seq<CreateRegistrationRequestStep>,
    events: Seq<CreateRegistrationRequestEvent>,
    actions: Seq<CreateRegistrationRequestAction>,
)
    requires
        is_create_request_run(email, addr_svc.accepts(email), steps, events, actions),
        steps.last() is Finished,
    ensures
        events.len() <= 3,
        !addr_svc.accepts(email) ==> events.len() == 0,
        actions.last() == CreateRegistrationRequestAction::Finish(
            expected_create_request_result(addr_svc.accepts(email), events),
        ),
        forall|i: int|
            0 <= i < actions.len() && #[trigger] actions[i] is SendMail ==> i == 1 && events[0]
                matches CreateRegistrationRequestEvent::InFlightChecked(Ok(false)),
        forall|i: int|
            0 <= i < actions.len() && #[trigger] actions[i] is SaveRequest ==> i == 2 && events[1]
                matches CreateRegistrationRequestEvent::MailSent(Ok(())),
        addr_svc.accepts(email) ==> (actions[0] matches CreateRegistrationRequestAction::CheckInFlight {
            email: e,
        } && e@ == email),
        forall|i: int|
            0 <= i < actions.len() && #[trigger] actions[i] is SendMail ==> actions[i]->SendMail_email@
                == email,
        forall|i: int|
            0 <= i < actions.len() && #[trigger] actions[i] is SaveRequest ==> {
                &&& actions[i]->request.email@ == email
                &&& actions[i]->request.is_fresh()
                &&& actions[1]->SendMail_message@ == code_mail_message(
                    actions[i]->request.hashed_code@,
                )
            },
{
    let n = events.len() as int;
    if n >= 1 {
        assert(steps[0].awaits(events[0]) && steps[0].transition(events[0], steps[1], actions[1]));
    }
    if n >= 2 {
        assert(steps[1].awaits(events[1]) && steps[1].transition(events[1], steps[2], actions[2]));
    }
    if n >= 3 {
        assert(steps[2].awaits(events[2]) && steps[2].transition(events[2], steps[3], actions[3]));
    }
    if n >= 4 {
        assert(steps[3].awaits(events[3]));
    }
    let authorized = addr_svc.accepts(email);
    if authorized {
        if exists|i: int| 0 <= i < events.len() && #[trigger] create_request_failure(events[i]) {
            let i = choose|i: int| 0 <= i < events.len() && #[trigger] create_request_failure(events[i]);
            assert(i == n - 1);
        } else {
            if n >= 1 {
                assert(!create_request_failure(events[0]));
            }
            if n >= 2 {
                assert(!create_request_failure(events[1]));
            }
            if n >= 3 {
                assert(!create_request_failure(events[2]));
            }
        }
    }
}

/// The flow emits its final action exactly when it reaches `Finished`.
pub proof fn law_create_request_finish_iff_finished(
    step: CreateRegistrationRequestStep,
    event: CreateRegistrationRequestEvent,
    next: CreateRegistrationRequestStep,
    action: CreateRegistrationRequestAction,
)
    requires
        step.awaits(event),
        step.transition(event, next, action),
    ensures
        (action is Finish) == (next is Finished),
{
}

/// The request that is stored is the one whose code was mailed, to the
/// address it was made for, after the mail went out.
pub proof fn law_stored_request_is_the_mailed_one(
    s0: CreateRegistrationRequestStep,
    e0: CreateRegistrationRequestEvent,
    s1: CreateRegistrationRequestStep,
    a1: CreateRegistrationRequestAction,
    e1: CreateRegistrationRequestEvent,
    s2: CreateRegistrationRequestStep,
    a2: CreateRegistrationRequestAction,
)
    requires
        s0.awaits(e0),
        s0.transition(e0, s1, a1),
        s1.awaits(e1),
        s1.transition(e1, s2, a2),
        a2 is SaveRequest,
    ensures
        e1 matches CreateRegistrationRequestEvent::MailSent(Ok(())),
        a2->request.is_fresh(),
        a1 matches CreateRegistrationRequestAction::SendMail { email, subject, message } && email@
            == a2->request.email@ && message@ == code_mail_message(a2->request.hashed_code@),
{
}

/// The flow never refuses an answer that it asked for: after starting for an
/// accepted address it takes every answer of the in-flight check; after asking
/// to send the mail it takes the mail service's answer whether the mail went
/// out or not; after asking to store the request it takes every answer of the
/// store; once finished it takes no answer.
pub proof fn law_create_request_takes_every_answer_it_asks_for(
    email: Seq<char>,
    step: CreateRegistrationRequestStep,
    event: CreateRegistrationRequestEvent,
    next: CreateRegistrationRequestStep,
    action: CreateRegistrationRequestAction,
)
    ensures
        create_request_begins(email, true, step, action) ==> forall|r: Result<bool, ServiceFailure>|
            #[trigger] step.awaits(CreateRegistrationRequestEvent::InFlightChecked(r)),
        step.awaits(event) && step.transition(event, next, action) ==> {
            &&& action is SendMail ==> forall|r: Result<(), ServiceFailure>|
                #[trigger] next.awaits(CreateRegistrationRequestEvent::MailSent(r))
            &&& action is SaveRequest ==> forall|r: Result<(), ServiceFailure>|
                #[trigger] next.awaits(CreateRegistrationRequestEvent::RequestSaved(r))
            &&& action is Finish ==> forall|e: CreateRegistrationRequestEvent| !next.awaits(e)
        },
{
}

/// For an accepted address, the answers "no request in flight", "mail sent"
/// and "request stored" are each taken in turn, and the flow ends `Ok`.
pub proof fn law_create_request_success_run(
    email: Seq<char>,
    s0: CreateRegistrationRequestStep,
    a0: CreateRegistrationRequestAction,
    s1: CreateRegistrationRequestStep,
    a1: CreateRegistrationRequestAction,
    s2: CreateRegistrationRequestStep,
    a2: CreateRegistrationRequestAction,
    s3: CreateRegistrationRequestStep,
    a3: CreateRegistrationRequestAction,
)
    requires
        create_request_begins(email, true, s0, a0),
        s0.transition(CreateRegistrationRequestEvent::InFlightChecked(Ok(false)), s1, a1),
        s1.transition(CreateRegistrationRequestEvent::MailSent(Ok(())), s2, a2),
        s2.transition(CreateRegistrationRequestEvent::RequestSaved(Ok(())), s3, a3),
    ensures
        s0.awaits(CreateRegistrationRequestEvent::InFlightChecked(Ok(false))),
        s1.awaits(CreateRegistrationRequestEvent::MailSent(Ok(()))),
        s2.awaits(CreateRegistrationRequestEvent::RequestSaved(Ok(()))),
        a1 is SendMail,
        a2 is SaveRequest,
        a3 == CreateRegistrationRequestAction::Finish(Ok(())),
        s3 is Finished,
{
}

/// The code mail goes to the mailbox that lettre reads from the address the
/// request was made for (which `code_mail_recipient` returns for it), and the
/// stored request is for that same address.
pub proof fn law_code_mail_goes_to_the_requester(
    email: Seq<char>,
    step: CreateRegistrationRequestStep,
    event: CreateRegistrationRequestEvent,
    next: CreateRegistrationRequestStep,
    action: CreateRegistrationRequestAction,
)
    requires
        step matches CreateRegistrationRequestStep::AwaitingInFlightCheck { email: e } && e@ == email,
        step.awaits(event),
        step.transition(event, next, action),
        action is SendMail,
    ensures
        mailbox_parses(action->SendMail_email@) == mailbox_parses(email),
        next matches CreateRegistrationRequestStep::AwaitingMailDelivery { request }
            && request.email@ == email,
{
}

} // verus!
