//! Registration and login flows of the Tamanduauth authentication service.
//!
//! The service side effects (database, mail, HTTP) are driven from the outside:
//! every flow here is a state machine that, given what a service answered,
//! decides the next state and the next action to perform.

pub mod commands;
pub mod controllers;
pub mod services;
