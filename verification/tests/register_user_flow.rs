use tamanduauth::commands::register_user as first_command;
use tamanduauth::commands::registration::register_user::{
    register_user, RegisterUserAction, RegisterUserErrors, RegisterUserEvent, RegisterUserStep,
};
use tamanduauth::commands::ServiceFailure;
use tamanduauth::services::domain::User;

fn user() -> User {
    User {
        id: 7,
        password: "$2b$12$abcdefghijklmnopqrstuv".to_string(),
        ra: "11201720000".to_string(),
        email: "aluno@aluno.ufabc.edu.br".to_string(),
    }
}

fn finish(action: RegisterUserAction) -> Result<(), RegisterUserErrors> {
    match action {
        RegisterUserAction::Finish(r) => r,
        _ => panic!("expected the end of the flow"),
    }
}

fn started() -> RegisterUserStep {
    let (step, action) = register_user("code-123", user());
    match action {
        RegisterUserAction::ValidateCode { email, code } => {
            assert_eq!(email, "aluno@aluno.ufabc.edu.br");
            assert_eq!(code, "code-123");
        }
        _ => panic!("expected a code validation"),
    }
    step
}

#[test]
fn first_register_user_command_accepts_everything() {
    assert_eq!(first_command::register_user("any", &user()), Ok(()));
}

#[test]
fn invalid_code_is_refused() {
    let (step, action) = started().step(RegisterUserEvent::CodeValidated(Ok(false)));
    assert!(matches!(step, RegisterUserStep::Finished));
    assert_eq!(finish(action), Err(RegisterUserErrors::InvalidCode));
}

#[test]
fn failed_code_validation_is_unknown_error() {
    let (_, action) = started().step(RegisterUserEvent::CodeValidated(Err(ServiceFailure)));
    assert_eq!(finish(action), Err(RegisterUserErrors::UnknownError));
}

#[test]
fn existing_user_is_refused() {
    let (step, action) = started().step(RegisterUserEvent::CodeValidated(Ok(true)));
    assert!(matches!(action, RegisterUserAction::CheckUserExists { ref email } if email == "aluno@aluno.ufabc.edu.br"));
    let (step, action) = step.step(RegisterUserEvent::UserLookedUp(Ok(true)));
    assert!(matches!(step, RegisterUserStep::Finished));
    assert_eq!(finish(action), Err(RegisterUserErrors::UserExists));
}

#[test]
fn failed_lookup_is_unknown_error() {
    let (step, _) = started().step(RegisterUserEvent::CodeValidated(Ok(true)));
    let (_, action) = step.step(RegisterUserEvent::UserLookedUp(Err(ServiceFailure)));
    assert_eq!(finish(action), Err(RegisterUserErrors::UnknownError));
}

#[test]
fn new_user_is_saved() {
    let (step, _) = started().step(RegisterUserEvent::CodeValidated(Ok(true)));
    let (step, action) = step.step(RegisterUserEvent::UserLookedUp(Ok(false)));
    match action {
        RegisterUserAction::SaveUser { user: saved } => {
            let expected = user();
            assert_eq!(saved.id, expected.id);
            assert_eq!(saved.ra, expected.ra);
            assert_eq!(saved.email, expected.email);
            assert_eq!(saved.password, expected.password);
        }
        _ => panic!("expected a save"),
    }
    let (step, action) = step.step(RegisterUserEvent::UserSaved(Ok(())));
    assert!(matches!(step, RegisterUserStep::Finished));
    assert_eq!(finish(action), Ok(()));
}

#[test]
fn failed_user_save_is_unknown_error() {
    let (step, _) = started().step(RegisterUserEvent::CodeValidated(Ok(true)));
    let (step, _) = step.step(RegisterUserEvent::UserLookedUp(Ok(false)));
    let (_, action) = step.step(RegisterUserEvent::UserSaved(Err(ServiceFailure)));
    assert_eq!(finish(action), Err(RegisterUserErrors::UnknownError));
}

#[test]
fn registration_waits_for_the_answer_it_asked_for() {
    let step = started();
    assert!(step.is_waiting_for(&RegisterUserEvent::CodeValidated(Ok(true))));
    assert!(!step.is_waiting_for(&RegisterUserEvent::UserLookedUp(Ok(true))));
    assert!(!step.is_waiting_for(&RegisterUserEvent::UserSaved(Ok(()))));
    let (step, _) = step.step(RegisterUserEvent::CodeValidated(Ok(false)));
    assert!(!step.is_waiting_for(&RegisterUserEvent::CodeValidated(Ok(true))));
}
