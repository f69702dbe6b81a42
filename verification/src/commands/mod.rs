pub mod create_registration_request;
pub mod login;
pub mod register_user;
pub mod registration;
pub mod service_failure;

pub use service_failure::ServiceFailure;
