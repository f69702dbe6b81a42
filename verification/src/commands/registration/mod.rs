pub mod register_user;

pub use super::create_registration_request;
