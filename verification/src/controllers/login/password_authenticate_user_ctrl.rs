use vstd::prelude::*;

use crate::commands::login::password_authenticate_user::{
    password_authenticate_user, PasswordAuthenticateUserAction, PasswordAuthenticateUserError,
    PasswordAuthenticateUserStep,
};

verus! {

/// The body of a password login.
pub struct PasswordAuthenticateUserRequest {
    pub ra: String,
    pub password: String,
}

/// The body of the answer to a successful login.
pub struct PasswordAuthenticateUserResponse {
    pub token: String,
}

/// Starts the login that `body` asks for.
pub fn password_authenticate_user_handler(body: &PasswordAuthenticateUserRequest) -> (r: (
    PasswordAuthenticateUserStep,
    PasswordAuthenticateUserAction,
))
    ensures
        r.0 is AwaitingLogin,
        r.1 matches PasswordAuthenticateUserAction::Login { ra, password } && ra@ == body.ra@
            && password@ == body.password@,
{
    password_authenticate_user(body.ra.as_str(), body.password.as_str())
}

/// Answers a login that ended with `result`: 200 (OK) with the token, 401
/// (Unauthorized) for an incorrect password, 500 (Internal Server Error)
/// when a service failed.
pub fn password_authenticate_user_reply(result: Result<String, PasswordAuthenticateUserError>) -> (r: (
    u16,
    Option<PasswordAuthenticateUserResponse>,
))
    ensures
        match result {
            Ok(token) => r.0 == 200 && (r.1 matches Some(response) && response.token@ == token@),
            Err(PasswordAuthenticateUserError::IncorrectPassword) => r.0 == 401 && r.1 is None,
            Err(PasswordAuthenticateUserError::UnknownError) => r.0 == 500 && r.1 is None,
        },
{
    match result {
        Ok(token) => (200, Some(PasswordAuthenticateUserResponse { token })),
        Err(PasswordAuthenticateUserError::IncorrectPassword) => (401, None),
        Err(PasswordAuthenticateUserError::UnknownError) => (500, None),
    }
}

} // verus!
