//! Settings handed to the engine at start-up.

pub mod token;

pub use token::{JwtTokenConfig, TokenConfig};
