use vstd::prelude::*;

use crate::commands::registration::register_user::{
    register_user, register_user_begins, RegisterUserAction, RegisterUserErrors, RegisterUserStep,
};
use crate::services::domain::ids::{is_random_uuid, new_random_uuid};
use crate::services::domain::password::{hash_password, is_bcrypt_hash, is_bcrypt_hash_of, PasswordHashError};
use crate::services::domain::user::User;

verus! {

/// The body of a registration request.
pub struct RegisterUserRequestBody {
    pub password: String,
    pub ra: String,
    pub email: String,
    pub hashed_code: String,
}

impl RegisterUserRequestBody {
    /// The user that the body describes, with a new random id and the bcrypt
    /// hash of the body's password; `Err` when the password could not be hashed.
    pub fn into_user(self) -> (r: Result<User, PasswordHashError>)
        ensures
            r matches Ok(user) ==> registered_from_body(self, user),
    {
        let id = new_random_uuid();
        match hash_password(self.password.as_str()) {
            Ok(password) => Ok(User { id, password, ra: self.ra, email: self.email }),
            Err(e) => Err(e),
        }
    }
}

/// Whether `user` is what the registration body `body` describes.
pub open spec fn registered_from_body(body: RegisterUserRequestBody, user: User) -> bool {
    &&& is_random_uuid(user.id)
    &&& is_bcrypt_hash(user.password@, 12)
    &&& is_bcrypt_hash_of(body.password@, 12, user.password@)
    &&& user.ra@ == body.ra@
    &&& user.email@ == body.email@
}

/// The HTTP status that answers a registration that ended with `result`.
pub open spec fn registration_status(result: Result<(), RegisterUserErrors>) -> u16 {
    match result {
        Ok(()) => 200,
        Err(RegisterUserErrors::UserExists) => 422,
        Err(RegisterUserErrors::InvalidCode) => 401,
        Err(RegisterUserErrors::UnknownError) => 500,
    }
}

/// Starts the registration that `body` asks for: the user it describes, with
/// its password hashed, is registered with the body's code. `Err` when the
/// password could not be hashed.
pub fn register_user_handler(body: RegisterUserRequestBody) -> (r: Result<
    (RegisterUserStep, RegisterUserAction),
    PasswordHashError,
>)
    ensures
        r matches Ok(started) ==> started.0 matches RegisterUserStep::AwaitingCodeValidation { user }
            && registered_from_body(body, user) && register_user_begins(
            body.hashed_code@,
            user,
            started.0,
            started.1,
        ),
{
    let hashed_code = body.hashed_code.clone();
    match body.into_user() {
        Ok(user) => {
            let started = register_user(hashed_code.as_str(), user);
            Ok(started)
        },
        Err(e) => Err(e),
    }
}

/// Answers a registration: 200 (OK) when the user was stored, 422
/// (Unprocessable Entity) when the user exists, 401 (Unauthorized) for an
/// invalid code, 500 (Internal Server Error) when a service failed.
pub fn register_user_status(result: &Result<(), RegisterUserErrors>) -> (status: u16)
    ensures
        status == registration_status(*result),
{
    match result {
        Ok(()) => 200,
        Err(RegisterUserErrors::UserExists) => 422,
        Err(RegisterUserErrors::InvalidCode) => 401,
        Err(RegisterUserErrors::UnknownError) => 500,
    }
}

/// A registration is answered with a success status (2xx) exactly when its
/// flow ended `Ok`, with a client error (4xx) exactly when it was refused (an
/// invalid code or an existing user), and with a server error (5xx) exactly
/// when a service failed.
pub proof fn law_registration_status_classes(result: Result<(), RegisterUserErrors>)
    ensures
        (200 <= registration_status(result) < 300) == (result is Ok),
        (400 <= registration_status(result) < 500) == (result == Err::<(), RegisterUserErrors>(
            RegisterUserErrors::InvalidCode,
        ) || result == Err::<(), RegisterUserErrors>(RegisterUserErrors::UserExists)),
        (500 <= registration_status(result) < 600) == (result == Err::<(), RegisterUserErrors>(
            RegisterUserErrors::UnknownError,
        )),
{
}

} // verus!
