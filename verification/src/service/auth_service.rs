use vstd::prelude::*;
use vstd::string::StringExecFns;

use crate::config::JwtTokenConfig;
use crate::exception::{ApiError, ErrorKind};
use crate::model::{
    AccessTokenRequest, EmailValidationRequest, InsertRefreshToken, JwtTokenClaims, LoginRequest,
    LoginResponse, RefreshToken, Timestamp, Token, TokenType, User,
};
use crate::service::credential_verifier::CredentialVerifier;
use crate::service::jwt_service::{signed_token, token_claims, JwtService, Verdict};
use crate::service::refresh_token_service::{RefreshTokenService, SessionKey};
use crate::service::token_service::TokenService;
use crate::service::user_service::UserService;
use crate::util::clock::current_time;
use crate::util::random::{is_session_id, random_session_id};
use crate::util::text::text_view;

verus! {

/// The only grant type the refresh flow accepts.
pub const GRANT_TYPE_REFRESH_TOKEN: &'static str = "refresh_token";

/// Where a login stands and what has just come in.
#[derive(Debug)]
pub enum LoginStep {
    /// The request has arrived.
    Request(LoginRequest),
    /// The store has answered the lookup of the user by email.
    UserFound { password: String, found: Result<Option<User>, ApiError> },
    /// The store has answered the insertion of the refresh session.
    SessionStored { user: User, access_token: String, stored: Result<RefreshToken, ApiError> },
}

/// What a login needs done next, or how it ends.
#[derive(Debug)]
pub enum LoginAction {
    /// Look the user up by email, then come back with
    /// [`LoginStep::UserFound`].
    FindUser { email: String, password: String },
    /// Store the refresh session, outside any registration transaction,
    /// then come back with [`LoginStep::SessionStored`].
    StoreSession { user: User, access_token: String, session: InsertRefreshToken },
    /// The login succeeded.
    Respond(LoginResponse),
    /// The login failed.
    Fail(ApiError),
}

/// Where a refresh stands and what has just come in.
#[derive(Debug)]
pub enum RefreshStep {
    /// The request has arrived, with the refresh token of the cookie where
    /// there is one.
    Request { cookie: Option<String>, request: AccessTokenRequest },
    /// The store has answered the lookup of the session.
    SessionFound { user_id: i64, found: Result<RefreshToken, ApiError> },
}

/// What a refresh needs done next, or how it ends.
#[derive(Debug)]
pub enum RefreshAction {
    /// Look the session up, then come back with
    /// [`RefreshStep::SessionFound`].
    FindSession(SessionKey),
    /// The refresh succeeded, with this new access token. The refresh
    /// token stays as it is.
    Respond(String),
    /// The refresh failed. No access token was issued.
    Fail(ApiError),
}

/// Where an email validation stands and what has just come in.
#[derive(Debug)]
#[allow(inconsistent_fields)]
pub enum EmailValidationStep {
    /// The request has arrived.
    Request(EmailValidationRequest),
    /// The store has answered the lookup of the user by email.
    UserFound { token: String, found: Result<Option<User>, ApiError> },
    /// The store has answered the lookup of the validation token.
    TokenFound { user_id: i64, found: Result<Option<Token>, ApiError> },
    /// The store has answered the update of the validation token.
    TokenMarked { user_id: i64, marked: Result<(), ApiError> },
    /// The store has answered the activation of the user.
    UserActivated(Result<(), ApiError>),
}

/// What an email validation needs done next, or how it ends.
#[derive(Debug)]
#[allow(inconsistent_fields)]
pub enum EmailValidationAction {
    /// Look the user up by email, then come back with
    /// [`EmailValidationStep::UserFound`].
    FindUser { email: String, token: String },
    /// Look the token up by user, code and type, then come back with
    /// [`EmailValidationStep::TokenFound`].
    FindToken { user_id: i64, token: String, token_type: TokenType },
    /// Store the token as validated, then come back with
    /// [`EmailValidationStep::TokenMarked`].
    MarkValidated { user_id: i64, token: Token },
    /// Set the user active, then come back with
    /// [`EmailValidationStep::UserActivated`].
    ActivateUser { user_id: i64 },
    /// The address is validated and the user is active.
    Done,
    /// The validation failed.
    Fail(ApiError),
}

/// Login, refresh of the access token and email validation, each as a
/// function from where the flow stands to what is done next. The caller
/// talks to the store and hands each answer back.
pub struct AuthService;

impl AuthService {
    /// The refresh token a request presents: that of the cookie, else that
    /// of the body.
    pub open spec fn presented_token(cookie: Option<String>, request: AccessTokenRequest) -> Option<
        Seq<char>,
    > {
        match cookie {
            Some(token) => Some(token@),
            None => text_view(request.refreh_token),
        }
    }

    /// Holds when `action` fails with `kind` and no fixed status.
    pub open spec fn login_fails(action: LoginAction, kind: ErrorKind) -> bool {
        action matches LoginAction::Fail(e) && e.is_plain(kind)
    }

    /// Holds when `action` fails with `kind` and no fixed status.
    pub open spec fn refresh_fails(action: RefreshAction, kind: ErrorKind) -> bool {
        action matches RefreshAction::Fail(e) && e.is_plain(kind)
    }

    /// Holds when `action` fails with `kind` and no fixed status.
    pub open spec fn validation_fails(action: EmailValidationAction, kind: ErrorKind) -> bool {
        action matches EmailValidationAction::Fail(e) && e.is_plain(kind)
    }

    /// What a login does at `step`, at the clock reading `now` and with
    /// `session_id` for a new session.
    pub open spec fn login_decided(
        config: &JwtTokenConfig,
        step: LoginStep,
        now: Timestamp,
        session_id: Seq<char>,
        action: LoginAction,
    ) -> bool {
        match step {
            LoginStep::Request(request) => match (request.email, request.password) {
                (Some(e), Some(p)) => {
                    &&& action matches LoginAction::FindUser { email, password }
                    &&& email == e
                    &&& password == p
                },
                _ => Self::login_fails(action, ErrorKind::AuthEmailAndPasswordRequired),
            },
            LoginStep::UserFound { password, found } => match found {
                Ok(Some(user)) => if !user.active {
                    Self::login_fails(action, ErrorKind::AuthInactiveUser)
                } else if !CredentialVerifier::verifies(password@, user.password@) {
                    Self::login_fails(action, ErrorKind::AuthInvalidLogin)
                } else {
                    let claims = JwtService::access_claims(user.id, now, config.access_token_ttl);
                    match signed_token(claims, config.access_token_secret@) {
                        None => Self::login_fails(action, ErrorKind::JwtErrGeneratingAccessToken),
                        Some(token) => {
                            &&& action matches LoginAction::StoreSession {
                                user: u,
                                access_token,
                                session,
                            }
                            &&& u == user
                            &&& access_token@ == token
                            &&& token_claims(token, config.access_token_secret@) == Some(claims)
                            &&& session.user_id == user.id
                            &&& session.uuid@ == session_id
                            &&& session.created_at == now
                        },
                    }
                },
                _ => Self::login_fails(action, ErrorKind::AuthInvalidLogin),
            },
            LoginStep::SessionStored { user, access_token, stored } => match stored {
                Err(e) => action == LoginAction::Fail(e),
                Ok(session) => {
                    let claims = JwtService::refresh_claims(
                        user.id,
                        session.uuid@,
                        now,
                        config.refresh_token_ttl,
                    );
                    match signed_token(claims, config.refresh_token_secret@) {
                        None => Self::login_fails(action, ErrorKind::JwtErrGeneratingRefreshToken),
                        Some(token) => {
                            &&& action matches LoginAction::Respond(response)
                            &&& response.user == user
                            &&& response.access_token == access_token
                            &&& response.refresh_token@ == token
                            &&& token_claims(token, config.refresh_token_secret@) == Some(claims)
                        },
                    }
                },
            },
        }
    }

    /// What a refresh does at `step`, at the clock reading `now`.
    pub open spec fn refresh_decided(
        config: &JwtTokenConfig,
        step: RefreshStep,
        now: Timestamp,
        action: RefreshAction,
    ) -> bool {
        match step {
            RefreshStep::Request { cookie, request } => match Self::presented_token(
                cookie,
                request,
            ) {
                None => Self::refresh_fails(action, ErrorKind::AuthRefreshTokenRequired),
                Some(token) => match request.grant_type {
                    None => Self::refresh_fails(action, ErrorKind::AuthGrantTypeRequired),
                    Some(grant_type) => if grant_type@ != GRANT_TYPE_REFRESH_TOKEN@ {
                        Self::refresh_fails(action, ErrorKind::AuthGrantTypeInvalid)
                    } else {
                        match JwtService::verdict(
                            token_claims(token, config.refresh_token_secret@),
                            now,
                        ) {
                            Verdict::Valid(claims) => match claims.token_uuid {
                                None => Self::refresh_fails(
                                    action,
                                    ErrorKind::RtknTokenUuidRequired,
                                ),
                                Some(uuid) => {
                                    &&& action matches RefreshAction::FindSession(key)
                                    &&& key.user_id == claims.sub
                                    &&& key.uuid@ == uuid
                                },
                            },
                            verdict => {
                                &&& action matches RefreshAction::Fail(e)
                                &&& JwtService::reports(
                                    Err::<JwtTokenClaims, ApiError>(e),
                                    verdict,
                                    None,
                                    ErrorKind::JwtErrValidationRefreshToken,
                                    ErrorKind::JwtErrExpiredRefreshToken,
                                )
                            },
                        }
                    },
                },
            },
            RefreshStep::SessionFound { user_id, found } => match found {
                Err(e) => action == RefreshAction::Fail(e),
                Ok(session) => if session.spec_is_revoked() {
                    Self::refresh_fails(action, ErrorKind::AuthRefreshTokenRevoked)
                } else {
                    let claims = JwtService::access_claims(user_id, now, config.access_token_ttl);
                    match signed_token(claims, config.access_token_secret@) {
                        None => Self::refresh_fails(
                            action,
                            ErrorKind::JwtErrGeneratingAccessToken,
                        ),
                        Some(token) => {
                            &&& action matches RefreshAction::Respond(access_token)
                            &&& access_token@ == token
                            &&& token_claims(token, config.access_token_secret@) == Some(claims)
                        },
                    }
                },
            },
        }
    }

    /// What an email validation does at `step`, at the clock reading `now`.
    pub open spec fn email_validation_decided(
        step: EmailValidationStep,
        now: Timestamp,
        action: EmailValidationAction,
    ) -> bool {
        match step {
            EmailValidationStep::Request(request) => match request.email {
                None => Self::validation_fails(action, ErrorKind::AuthEmailRequired),
                Some(e) => match request.token {
                    None => Self::validation_fails(action, ErrorKind::AuthTokenRequired),
                    Some(t) => {
                        &&& action matches EmailValidationAction::FindUser { email, token }
                        &&& email == e
                        &&& token == t
                    },
                },
            },
            EmailValidationStep::UserFound { token, found } => match found {
                Err(e) => action == EmailValidationAction::Fail(e),
                Ok(None) => {
                    &&& action matches EmailValidationAction::Fail(e)
                    &&& UserService::not_found(e)
                },
                Ok(Some(user)) => {
                    &&& action matches EmailValidationAction::FindToken {
                        user_id,
                        token: t,
                        token_type,
                    }
                    &&& user_id == user.id
                    &&& t == token
                    &&& token_type == TokenType::UserEmailActivation
                },
            },
            EmailValidationStep::TokenFound { user_id, found } => match found {
                Err(e) => action == EmailValidationAction::Fail(e),
                Ok(found) => {
                    ||| {
                        &&& action matches EmailValidationAction::Fail(e)
                        &&& TokenService::found_and_checked(found, now, Err(e))
                    }
                    ||| {
                        &&& action matches EmailValidationAction::MarkValidated { user_id: u, token }
                        &&& u == user_id
                        &&& TokenService::found_and_checked(found, now, Ok(token))
                    }
                },
            },
            EmailValidationStep::TokenMarked { user_id, marked } => match marked {
                Err(e) => action == EmailValidationAction::Fail(e),
                Ok(_) => action == (EmailValidationAction::ActivateUser { user_id }),
            },
            EmailValidationStep::UserActivated(activated) => match activated {
                Err(e) => action == EmailValidationAction::Fail(e),
                Ok(_) => action == EmailValidationAction::Done,
            },
        }
    }

    /// One step of an email validation as of the clock reading `now`.
    pub fn email_validation_at(step: EmailValidationStep, now: Timestamp) -> (action:
        EmailValidationAction)
        ensures
            Self::email_validation_decided(step, now, action),
    {
        match step {
            EmailValidationStep::Request(request) => {
                let email = match request.email {
                    Some(email) => email,
                    None => {
                        return EmailValidationAction::Fail(
                            ApiError::new(ErrorKind::AuthEmailRequired),
                        );
                    },
                };
                match request.token {
                    Some(token) => EmailValidationAction::FindUser { email, token },
                    None => EmailValidationAction::Fail(ApiError::new(ErrorKind::AuthTokenRequired)),
                }
            },
            EmailValidationStep::UserFound { token, found } => match found {
                Err(e) => EmailValidationAction::Fail(e),
                Ok(found) => match UserService::find_by_email(found) {
                    Err(e) => EmailValidationAction::Fail(e),
                    Ok(user) => EmailValidationAction::FindToken {
                        user_id: user.id,
                        token,
                        token_type: TokenType::UserEmailActivation,
                    },
                },
            },
            EmailValidationStep::TokenFound { user_id, found } => match found {
                Err(e) => EmailValidationAction::Fail(e),
                Ok(found) => match TokenService::check_email_validation_token_at(found, now) {
                    Err(e) => EmailValidationAction::Fail(e),
                    Ok(token) => EmailValidationAction::MarkValidated { user_id, token },
                },
            },
            EmailValidationStep::TokenMarked { user_id, marked } => match marked {
                Err(e) => EmailValidationAction::Fail(e),
                Ok(_) => EmailValidationAction::ActivateUser { user_id },
            },
            EmailValidationStep::UserActivated(activated) => match activated {
                Err(e) => EmailValidationAction::Fail(e),
                Ok(_) => EmailValidationAction::Done,
            },
        }
    }

    /// One step of an email validation: from where the flow stands to
    /// what is done next.
    pub fn email_validation(step: EmailValidationStep) -> (action: EmailValidationAction)
        ensures
            exists|now: Timestamp|
                now.wf() && #[trigger] Self::email_validation_decided(step, now, action),
    {
        let now = current_time();
        Self::email_validation_at(step, now)
    }

    /// One step of a login as of the clock reading `now`, with
    /// `session_id` for the session of a user whose credentials hold.
    pub fn login_at(config: &JwtTokenConfig, step: LoginStep, now: Timestamp, session_id: String) -> (action:
        LoginAction)
        requires
            config.covers_access(now),
            config.covers_refresh(now),
        ensures
            Self::login_decided(config, step, now, session_id@, action),
    {
        match step {
            LoginStep::Request(request) => match (request.email, request.password) {
                (Some(email), Some(password)) => LoginAction::FindUser { email, password },
                _ => LoginAction::Fail(ApiError::new(ErrorKind::AuthEmailAndPasswordRequired)),
            },
            LoginStep::UserFound { password, found } => {
                let user = match found {
                    Ok(Some(user)) => user,
                    _ => {
                        return LoginAction::Fail(ApiError::new(ErrorKind::AuthInvalidLogin));
                    },
                };
                if !user.active {
                    return LoginAction::Fail(ApiError::new(ErrorKind::AuthInactiveUser));
                }
                if !CredentialVerifier::verify(password.as_str(), user.password.as_str()) {
                    return LoginAction::Fail(ApiError::new(ErrorKind::AuthInvalidLogin));
                }
                match JwtService::generate_access_token_at(config, user.id, now) {
                    Err(e) => LoginAction::Fail(e),
                    Ok(access_token) => {
                        let session = RefreshTokenService::new_session(user.id, session_id, now);
                        LoginAction::StoreSession { user, access_token, session }
                    },
                }
            },
            LoginStep::SessionStored { user, access_token, stored } => match stored {
                Err(e) => LoginAction::Fail(e),
                Ok(session) => match JwtService::generate_refresh_token_at(
                    config,
                    user.id,
                    session.uuid,
                    now,
                ) {
                    Err(e) => LoginAction::Fail(e),
                    Ok(refresh_token) => LoginAction::Respond(
                        LoginResponse { user, access_token, refresh_token },
                    ),
                },
            },
        }
    }

    /// One step of a login: from where the flow stands to what is done
    /// next. A new session gets a fresh random identifier.
    pub fn login(config: &JwtTokenConfig, step: LoginStep) -> (action: LoginAction)
        requires
            config.wf(),
        ensures
            exists|now: Timestamp, session_id: Seq<char>|
                now.wf() && is_session_id(session_id) && #[trigger] Self::login_decided(
                    config,
                    step,
                    now,
                    session_id,
                    action,
                ),
    {
        let now = current_time();
        let session_id = random_session_id();
        Self::login_at(config, step, now, session_id)
    }

    /// One step of a refresh as of the clock reading `now`.
    pub fn refresh_access_token_at(config: &JwtTokenConfig, step: RefreshStep, now: Timestamp) -> (action:
        RefreshAction)
        requires
            config.covers_access(now),
        ensures
            Self::refresh_decided(config, step, now, action),
    {
        match step {
            RefreshStep::Request { cookie, request } => {
                let refresh_token = match cookie {
                    Some(token) => token,
                    None => match request.refreh_token {
                        Some(token) => token,
                        None => {
                            return RefreshAction::Fail(
                                ApiError::new(ErrorKind::AuthRefreshTokenRequired),
                            );
                        },
                    },
                };
                let grant_type = match request.grant_type {
                    Some(grant_type) => grant_type,
                    None => {
                        return RefreshAction::Fail(ApiError::new(ErrorKind::AuthGrantTypeRequired));
                    },
                };
                if grant_type != String::from_str(GRANT_TYPE_REFRESH_TOKEN) {
                    return RefreshAction::Fail(ApiError::new(ErrorKind::AuthGrantTypeInvalid));
                }
                let claims = match JwtService::verify_refresh_token_at(
                    config,
                    refresh_token.as_str(),
                    now,
                ) {
                    Ok(claims) => claims,
                    Err(e) => {
                        return RefreshAction::Fail(e);
                    },
                };
                match RefreshTokenService::find_by_uuid(claims.sub, claims.token_uuid) {
                    Ok(key) => RefreshAction::FindSession(key),
                    Err(e) => RefreshAction::Fail(e),
                }
            },
            RefreshStep::SessionFound { user_id, found } => match found {
                Err(e) => RefreshAction::Fail(e),
                Ok(session) => {
                    if session.is_revoked() {
                        return RefreshAction::Fail(
                            ApiError::new(ErrorKind::AuthRefreshTokenRevoked),
                        );
                    }
                    match JwtService::generate_access_token_at(config, user_id, now) {
                        Ok(access_token) => RefreshAction::Respond(access_token),
                        Err(e) => RefreshAction::Fail(e),
                    }
                },
            },
        }
    }

    /// One step of a refresh: from where the flow stands to what is done
    /// next.
    pub fn refresh_access_token(config: &JwtTokenConfig, step: RefreshStep) -> (action:
        RefreshAction)
        requires
            config.wf(),
        ensures
            exists|now: Timestamp|
                now.wf() && #[trigger] Self::refresh_decided(config, step, now, action),
    {
        let now = current_time();
        Self::refresh_access_token_at(config, step, now)
    }
}

} // verus!
