pub use super::registration::create_validation_request_ctrl::{
    create_validation_request, create_validation_request_status, CreateValidationRequestBody,
};
