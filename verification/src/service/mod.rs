//! The use cases: token codec, login, refresh, email validation, registration.

pub mod auth_service;
pub mod credential_verifier;
pub mod guarantees;
pub mod jwt_service;
pub mod members;
pub mod refresh_token_service;
pub mod token_service;
pub mod user_service;

pub use auth_service::{
    AuthService, EmailValidationAction, EmailValidationStep, LoginAction, LoginStep, RefreshAction,
    RefreshStep,
};
pub use credential_verifier::CredentialVerifier;
pub use jwt_service::JwtService;
pub use refresh_token_service::{RefreshTokenService, SessionKey};
pub use token_service::TokenService;
pub use user_service::{SaveAction, SaveStep, UserService};
