//! Helpers shared by the services: the clock, random values, passwords,
//! field validators.

pub mod clock;
pub mod password;
pub mod random;
pub mod text;
pub mod validators;

pub use validators::{validate_email, validate_password};
