pub mod password_authenticate_user;
pub mod session_token;
