use tamanduauth::commands::create_registration_request::{
    begin_registration_request, create_registration_request, CreateRegistrationRequestAction,
    CreateRegistrationRequestErrors, CreateRegistrationRequestEvent, CreateRegistrationRequestStep,
};
use tamanduauth::commands::ServiceFailure;
use tamanduauth::services::infra::UFABCMailAddressValidationService;

const ADDRESS: &str = "aluno@aluno.ufabc.edu.br";

fn finish_result(action: &CreateRegistrationRequestAction) -> Option<Result<(), CreateRegistrationRequestErrors>> {
    match action {
        CreateRegistrationRequestAction::Finish(r) => Some(match r {
            Ok(()) => Ok(()),
            Err(CreateRegistrationRequestErrors::UnauthorizedEmail) => {
                Err(CreateRegistrationRequestErrors::UnauthorizedEmail)
            }
            Err(CreateRegistrationRequestErrors::UnknownError) => {
                Err(CreateRegistrationRequestErrors::UnknownError)
            }
        }),
        _ => None,
    }
}

fn started() -> CreateRegistrationRequestStep {
    let (step, action) = create_registration_request(&UFABCMailAddressValidationService, ADDRESS);
    match action {
        CreateRegistrationRequestAction::CheckInFlight { email } => assert_eq!(email, ADDRESS),
        _ => panic!("expected an in-flight check"),
    }
    step
}

#[test]
fn unauthorized_address_is_refused_at_once() {
    let (step, action) =
        create_registration_request(&UFABCMailAddressValidationService, "someone@gmail.com");
    assert!(matches!(step, CreateRegistrationRequestStep::Finished));
    assert_eq!(finish_result(&action), Some(Err(CreateRegistrationRequestErrors::UnauthorizedEmail)));
}

#[test]
fn begin_follows_the_address_decision() {
    let (step, action) = begin_registration_request(false, ADDRESS);
    assert!(matches!(step, CreateRegistrationRequestStep::Finished));
    assert_eq!(finish_result(&action), Some(Err(CreateRegistrationRequestErrors::UnauthorizedEmail)));
    let (step, action) = begin_registration_request(true, "x@y");
    assert!(matches!(step, CreateRegistrationRequestStep::AwaitingInFlightCheck { .. }));
    assert!(matches!(action, CreateRegistrationRequestAction::CheckInFlight { ref email } if email == "x@y"));
}

#[test]
fn request_in_flight_ends_ok_without_mail() {
    let (step, action) = started().step(CreateRegistrationRequestEvent::InFlightChecked(Ok(true)));
    assert!(matches!(step, CreateRegistrationRequestStep::Finished));
    assert_eq!(finish_result(&action), Some(Ok(())));
}

#[test]
fn failed_in_flight_check_is_unknown_error() {
    let (step, action) =
        started().step(CreateRegistrationRequestEvent::InFlightChecked(Err(ServiceFailure)));
    assert!(matches!(step, CreateRegistrationRequestStep::Finished));
    assert_eq!(finish_result(&action), Some(Err(CreateRegistrationRequestErrors::UnknownError)));
}

#[test]
fn new_request_mails_the_code_then_saves_it() {
    let (step, action) = started().step(CreateRegistrationRequestEvent::InFlightChecked(Ok(false)));
    let mailed_code = match action {
        CreateRegistrationRequestAction::SendMail { email, subject, message } => {
            assert_eq!(email, ADDRESS);
            assert_eq!(subject, "Código Tamanduauth");
            let prefix = "Seu código Tamanduauth é: ";
            assert!(message.starts_with(prefix));
            message[prefix.len()..].to_string()
        }
        _ => panic!("expected a mail"),
    };
    assert_eq!(mailed_code.chars().count(), 36);
    let (step, action) = step.step(CreateRegistrationRequestEvent::MailSent(Ok(())));
    assert!(matches!(step, CreateRegistrationRequestStep::AwaitingSave));
    match action {
        CreateRegistrationRequestAction::SaveRequest { request } => {
            assert_eq!(request.email, ADDRESS);
            assert_eq!(request.hashed_code, mailed_code);
        }
        _ => panic!("expected a save"),
    }
    let (step, action) = step.step(CreateRegistrationRequestEvent::RequestSaved(Ok(())));
    assert!(matches!(step, CreateRegistrationRequestStep::Finished));
    assert_eq!(finish_result(&action), Some(Ok(())));
}

#[test]
fn failed_mail_is_unknown_error_and_nothing_is_saved() {
    let (step, _) = started().step(CreateRegistrationRequestEvent::InFlightChecked(Ok(false)));
    let (step, action) = step.step(CreateRegistrationRequestEvent::MailSent(Err(ServiceFailure)));
    assert!(matches!(step, CreateRegistrationRequestStep::Finished));
    assert_eq!(finish_result(&action), Some(Err(CreateRegistrationRequestErrors::UnknownError)));
}

#[test]
fn failed_save_is_unknown_error() {
    let (step, _) = started().step(CreateRegistrationRequestEvent::InFlightChecked(Ok(false)));
    let (step, _) = step.step(CreateRegistrationRequestEvent::MailSent(Ok(())));
    let (step, action) = step.step(CreateRegistrationRequestEvent::RequestSaved(Err(ServiceFailure)));
    assert!(matches!(step, CreateRegistrationRequestStep::Finished));
    assert_eq!(finish_result(&action), Some(Err(CreateRegistrationRequestErrors::UnknownError)));
}

#[test]
fn registration_request_waits_for_the_answer_it_asked_for() {
    let step = started();
    assert!(step.is_waiting_for(&CreateRegistrationRequestEvent::InFlightChecked(Ok(false))));
    assert!(!step.is_waiting_for(&CreateRegistrationRequestEvent::MailSent(Ok(()))));
    let (step, _) = step.step(CreateRegistrationRequestEvent::InFlightChecked(Ok(false)));
    assert!(step.is_waiting_for(&CreateRegistrationRequestEvent::MailSent(Err(ServiceFailure))));
    assert!(!step.is_waiting_for(&CreateRegistrationRequestEvent::RequestSaved(Ok(()))));
}
