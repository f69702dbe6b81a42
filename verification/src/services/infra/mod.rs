pub mod mail;
pub mod validation;

pub use mail::UFABCMailAddressValidationService;
