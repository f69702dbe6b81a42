pub mod ids;
pub mod mail;
pub mod password;
pub mod user;
pub mod validation;

pub use mail::MailAddressValidationService;
pub use user::User;
pub use validation::ValidationRequest;
