use vstd::prelude::*;

use super::user::User;

verus! {

/// What a caller sends to log in.
#[derive(Debug)]
pub struct LoginRequest {
    pub email: Option<String>,
    pub password: Option<String>,
}

/// What a successful login hands back.
#[derive(Debug)]
pub struct LoginResponse {
    pub user: User,
    pub access_token: String,
    pub refresh_token: String,
}

/// What a caller sends to exchange a refresh token for an access token.
#[derive(Debug)]
pub struct AccessTokenRequest {
    pub refreh_token: Option<String>,
    pub grant_type: Option<String>,
}

/// What a caller sends to reset a forgotten password.
#[derive(Debug)]
pub struct ForgotPasswordRequest {
    pub email: Option<String>,
    pub token: Option<String>,
    pub password: Option<String>,
    pub confirm_password: Option<String>,
}

/// What a caller sends to validate an email address.
#[derive(Debug)]
pub struct EmailValidationRequest {
    pub email: Option<String>,
    pub token: Option<String>,
}

} // verus!
