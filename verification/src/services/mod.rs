pub mod domain;
pub mod infra;
