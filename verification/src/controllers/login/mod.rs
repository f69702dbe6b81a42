pub mod password_authenticate_user_ctrl;
