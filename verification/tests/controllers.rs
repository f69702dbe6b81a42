use tamanduauth::commands::create_registration_request::{
    CreateRegistrationRequestAction, CreateRegistrationRequestErrors,
};
use tamanduauth::commands::login::password_authenticate_user::PasswordAuthenticateUserError;
use tamanduauth::commands::registration::register_user::{RegisterUserAction, RegisterUserErrors};
use tamanduauth::controllers::create_validation_request_ctrl::{
    create_validation_request, create_validation_request_status, CreateValidationRequestBody,
};
use tamanduauth::controllers::login::password_authenticate_user_ctrl::{
    password_authenticate_user_handler, password_authenticate_user_reply,
    PasswordAuthenticateUserRequest,
};
use tamanduauth::controllers::registration::register_user_ctrl::{
    register_user_handler, register_user_status, RegisterUserRequestBody,
};
use tamanduauth::services::domain::password::{hash_password, password_matches};
use tamanduauth::services::infra::UFABCMailAddressValidationService;

#[test]
fn validation_request_statuses() {
    assert_eq!(create_validation_request_status(&Ok(())), 204);
    assert_eq!(
        create_validation_request_status(&Err(CreateRegistrationRequestErrors::UnauthorizedEmail)),
        401
    );
    assert_eq!(create_validation_request_status(&Err(CreateRegistrationRequestErrors::UnknownError)), 500);
}

#[test]
fn validation_request_starts_from_the_body() {
    let body = CreateValidationRequestBody { email: "x@ufabc.edu.br".to_string() };
    let (_, action) = create_validation_request(&body, &UFABCMailAddressValidationService);
    assert!(matches!(action, CreateRegistrationRequestAction::CheckInFlight { ref email } if email == "x@ufabc.edu.br"));
    let body = CreateValidationRequestBody { email: "x@usp.br".to_string() };
    let (_, action) = create_validation_request(&body, &UFABCMailAddressValidationService);
    assert!(matches!(
        action,
        CreateRegistrationRequestAction::Finish(Err(CreateRegistrationRequestErrors::UnauthorizedEmail))
    ));
}

#[test]
fn registration_statuses() {
    assert_eq!(register_user_status(&Ok(())), 200);
    assert_eq!(register_user_status(&Err(RegisterUserErrors::UserExists)), 422);
    assert_eq!(register_user_status(&Err(RegisterUserErrors::InvalidCode)), 401);
    assert_eq!(register_user_status(&Err(RegisterUserErrors::UnknownError)), 500);
}

fn is_bcrypt_12(hash: &str) -> bool {
    hash.len() == 60
        && hash.starts_with("$2b$12$")
        && hash[7..].chars().all(|c| c.is_ascii_alphanumeric() || c == '.' || c == '/')
}

#[test]
fn registration_body_becomes_a_user_with_hashed_password() {
    let body = RegisterUserRequestBody {
        password: "segredo".to_string(),
        ra: "11201720000".to_string(),
        email: "aluno@aluno.ufabc.edu.br".to_string(),
        hashed_code: "code-1".to_string(),
    };
    let user = body.into_user().ok().expect("a user");
    assert_eq!(user.ra, "11201720000");
    assert_eq!(user.email, "aluno@aluno.ufabc.edu.br");
    assert!(is_bcrypt_12(&user.password), "{}", user.password);
    assert_ne!(user.password, "segredo");
    assert_eq!((user.id >> 76) & 0xf, 4);
}

#[test]
fn registration_handler_validates_the_body_code() {
    let body = RegisterUserRequestBody {
        password: "segredo".to_string(),
        ra: "11201720000".to_string(),
        email: "aluno@aluno.ufabc.edu.br".to_string(),
        hashed_code: "code-1".to_string(),
    };
    let (_, action) = register_user_handler(body).ok().expect("started");
    match action {
        RegisterUserAction::ValidateCode { email, code } => {
            assert_eq!(email, "aluno@aluno.ufabc.edu.br");
            assert_eq!(code, "code-1");
        }
        _ => panic!("expected a code validation"),
    }
}

#[test]
fn password_hash_is_bcrypt_with_cost_12() {
    let hash = hash_password("correct horse").ok().expect("a hash");
    assert!(is_bcrypt_12(&hash), "{}", hash);
    let again = hash_password("correct horse").ok().expect("a hash");
    assert_ne!(hash, again);
}

#[test]
fn login_replies() {
    let (status, body) = password_authenticate_user_reply(Ok("a.b.c".to_string()));
    assert_eq!(status, 200);
    assert_eq!(body.expect("a body").token, "a.b.c");
    let (status, body) =
        password_authenticate_user_reply(Err(PasswordAuthenticateUserError::IncorrectPassword));
    assert_eq!(status, 401);
    assert!(body.is_none());
    let (status, body) = password_authenticate_user_reply(Err(PasswordAuthenticateUserError::UnknownError));
    assert_eq!(status, 500);
    assert!(body.is_none());
}

#[test]
fn login_starts_from_the_body() {
    let body = PasswordAuthenticateUserRequest { ra: "1".to_string(), password: "p".to_string() };
    let (_, action) = password_authenticate_user_handler(&body);
    assert!(matches!(
        action,
        tamanduauth::commands::login::password_authenticate_user::PasswordAuthenticateUserAction::Login { ref ra, ref password }
            if ra == "1" && password == "p"
    ));
}

#[test]
fn non_ufabc_body_is_answered_unauthorized() {
    let body = CreateValidationRequestBody { email: "aaa@bbb.com".to_string() };
    let (_, action) = create_validation_request(&body, &UFABCMailAddressValidationService);
    match action {
        CreateRegistrationRequestAction::Finish(result) => {
            assert_eq!(create_validation_request_status(&result), 401)
        }
        _ => panic!("a refused address asks no service"),
    }
}

#[test]
fn hashed_password_matches_only_itself() {
    let hash = hash_password("correct horse").ok().expect("a hash");
    assert!(matches!(password_matches("correct horse", &hash), Ok(true)));
    assert!(matches!(password_matches("wrong horse", &hash), Ok(false)));
    assert!(password_matches("correct horse", "not a bcrypt hash").is_err());
}

#[test]
fn registered_password_hash_matches_the_body_password() {
    let body = RegisterUserRequestBody {
        password: "segredo".to_string(),
        ra: "1".to_string(),
        email: "a@ufabc.edu.br".to_string(),
        hashed_code: "c".to_string(),
    };
    let user = body.into_user().ok().expect("a user");
    assert!(matches!(password_matches("segredo", &user.password), Ok(true)));
    assert!(matches!(password_matches("", &user.password), Ok(false)));
}
