//! The data the engine works on, as plain values.

pub mod auth;
pub mod event;
pub mod refresh_token;
pub mod timestamp;
pub mod token;
pub mod user;

pub use auth::{
    AccessTokenRequest, EmailValidationRequest, ForgotPasswordRequest, LoginRequest, LoginResponse,
};
pub use event::{MailEvent, MailEventView};
pub use refresh_token::{InsertRefreshToken, RefreshToken};
pub use timestamp::Timestamp;
pub use token::{
    ClaimSet, ClaimValue, ClaimView, InsertToken, JwtTokenClaims, Token, TokenType,
};
pub use user::{User, UserRequest};
