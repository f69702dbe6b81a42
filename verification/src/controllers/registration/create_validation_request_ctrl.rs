use vstd::prelude::*;

use crate::commands::create_registration_request::{
    create_registration_request, create_request_begins, CreateRegistrationRequestAction,
    CreateRegistrationRequestErrors, CreateRegistrationRequestStep,
};
use crate::services::domain::mail::MailAddressValidationService;

verus! {

/// The body of a request for a registration code.
pub struct CreateValidationRequestBody {
    pub email: String,
}

/// The HTTP status that answers a request for a registration code that ended with `result`.
pub open spec fn validation_request_status(result: Result<(), CreateRegistrationRequestErrors>) -> u16 {
    match result {
        Ok(()) => 204,
        Err(CreateRegistrationRequestErrors::UnauthorizedEmail) => 401,
        Err(CreateRegistrationRequestErrors::UnknownError) => 500,
    }
}

/// Starts the registration request that `body` asks for.
pub fn create_validation_request<A: MailAddressValidationService>(
    body: &CreateValidationRequestBody,
    addr_svc: &A,
) -> (r: (CreateRegistrationRequestStep, CreateRegistrationRequestAction))
    ensures
        create_request_begins(body.email@, addr_svc.accepts(body.email@), r.0, r.1),
{
    create_registration_request(addr_svc, body.email.as_str())
}

/// Answers a request for a registration code: 204 (No Content) when the code
/// was sent or one is in flight, 401 (Unauthorized) for a refused address,
/// 500 (Internal Server Error) when a service failed.
pub fn create_validation_request_status(result: &Result<(), CreateRegistrationRequestErrors>) -> (status: u16)
    ensures
        status == validation_request_status(*result),
{
    match result {
        Ok(()) => 204,
        Err(CreateRegistrationRequestErrors::UnauthorizedEmail) => 401,
        Err(CreateRegistrationRequestErrors::UnknownError) => 500,
    }
}

/// A request for a code is answered with a success status (2xx) exactly when
/// its flow ended `Ok`, with a client error (4xx) exactly for a refused
/// address, and with a server error (5xx) exactly when a service failed.
pub proof fn law_validation_request_status_classes(result: Result<(), CreateRegistrationRequestErrors>)
    ensures
        (200 <= validation_request_status(result) < 300) == (result is Ok),
        (400 <= validation_request_status(result) < 500) == (result == Err::<
            (),
            CreateRegistrationRequestErrors,
        >(CreateRegistrationRequestErrors::UnauthorizedEmail)),
        (500 <= validation_request_status(result) < 600) == (result == Err::<
            (),
            CreateRegistrationRequestErrors,
        >(CreateRegistrationRequestErrors::UnknownError)),
{
}

} // verus!
