pub mod create_validation_request_ctrl;
pub mod login;
pub mod registration;
