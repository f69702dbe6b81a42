pub mod create_validation_request_ctrl;
pub mod register_user_ctrl;
