//! What holds across the functions of the engine, proved from their
//! contracts.

use vstd::prelude::*;

use crate::config::JwtTokenConfig;
use crate::exception::{ApiError, ErrorKind, UNAUTHORIZED};
use crate::model::timestamp::representable;
use crate::model::{
    AccessTokenRequest, ClaimSet, JwtTokenClaims, RefreshToken, Timestamp, Token,
};
use crate::model::timestamp::{SECONDS_PER_DAY, SECONDS_PER_MINUTE};
use crate::service::auth_service::{
    AuthService, EmailValidationAction, EmailValidationStep, LoginAction, LoginStep, RefreshAction,
    RefreshStep, GRANT_TYPE_REFRESH_TOKEN,
};
use crate::model::ClaimView;
use crate::service::jwt_service::{signed_members, signed_token, token_claims, JwtService};
use crate::service::members::{
    claim_members_of, lemma_claim_members_hold_the_claims, member, EXPIRY, ISSUED_AT, NOT_BEFORE,
    SESSION, SUBJECT,
};
use crate::service::token_service::TokenService;

verus! {

/// Holds when a token with the expiry `exp` can still be used at `now`:
/// the expiry is a second of the calendar and does not lie before `now`.
pub open spec fn in_force(exp: i64, now: Timestamp) -> bool {
    &&& representable(exp)
    &&& !(Timestamp { secs: exp, nanos: 0 }).earlier_than(&now)
}

/// An access token is signed over the subject, the expiry, the time of
/// issue and the time from which it counts, and over no session member. A
/// refresh token is signed over the same and over its session.
pub proof fn tokens_are_signed_over_their_members(
    config: &JwtTokenConfig,
    user_id: i64,
    uuid: Seq<char>,
    now: Timestamp,
)
    ensures
        ({
            let claims = JwtService::access_claims(user_id, now, config.access_token_ttl);
            let members = claim_members_of(claims);
            &&& signed_token(claims, config.access_token_secret@) == signed_members(
                members,
                config.access_token_secret@,
            )
            &&& members.len() == 4
            &&& member(members, SESSION@) is None
            &&& member(members, SUBJECT@) == Some(ClaimView::Integer(user_id))
            &&& member(members, EXPIRY@) == Some(ClaimView::Integer(claims.exp))
            &&& member(members, ISSUED_AT@) == Some(ClaimView::Integer(now.secs))
            &&& member(members, NOT_BEFORE@) == Some(ClaimView::Integer(now.secs))
        }),
        ({
            let claims = JwtService::refresh_claims(user_id, uuid, now, config.refresh_token_ttl);
            let members = claim_members_of(claims);
            &&& signed_token(claims, config.refresh_token_secret@) == signed_members(
                members,
                config.refresh_token_secret@,
            )
            &&& members.len() == 5
            &&& member(members, SESSION@) == Some(ClaimView::Text(uuid))
            &&& member(members, SUBJECT@) == Some(ClaimView::Integer(user_id))
            &&& member(members, EXPIRY@) == Some(ClaimView::Integer(claims.exp))
        }),
{
    lemma_claim_members_hold_the_claims(
        JwtService::access_claims(user_id, now, config.access_token_ttl),
    );
    lemma_claim_members_hold_the_claims(
        JwtService::refresh_claims(user_id, uuid, now, config.refresh_token_ttl),
    );
}

/// An access token that was issued for a user verifies, while it is in
/// force, to claims with that user as the subject.
pub proof fn access_token_round_trip(
    config: &JwtTokenConfig,
    user_id: i64,
    issued_at: Timestamp,
    checked_at: Timestamp,
    token: String,
    verified: Result<JwtTokenClaims, ApiError>,
)
    requires
        JwtService::access_token_issued(config, user_id, issued_at, Ok(token)),
        JwtService::access_token_verified(config, token@, checked_at, verified),
        in_force(
            JwtService::access_claims(user_id, issued_at, config.access_token_ttl).exp,
            checked_at,
        ),
    ensures
        verified matches Ok(claims) && claims.sub == user_id && claims@
            == JwtService::access_claims(user_id, issued_at, config.access_token_ttl),
{
}

/// A refresh token that was issued for a user and a session verifies,
/// while it is in force, to claims with that user as the subject and that
/// session as the session.
pub proof fn refresh_token_round_trip(
    config: &JwtTokenConfig,
    user_id: i64,
    uuid: Seq<char>,
    issued_at: Timestamp,
    checked_at: Timestamp,
    token: String,
    verified: Result<JwtTokenClaims, ApiError>,
)
    requires
        JwtService::refresh_token_issued(config, user_id, uuid, issued_at, Ok(token)),
        JwtService::refresh_token_verified(config, token@, checked_at, verified),
        in_force(
            JwtService::refresh_claims(user_id, uuid, issued_at, config.refresh_token_ttl).exp,
            checked_at,
        ),
    ensures
        verified matches Ok(claims) && claims.sub == user_id && claims@.token_uuid == Some(uuid),
{
}

/// Access tokens are read under the access secret and no other: a token
/// that does not read under it is refused as invalid, with whatever
/// secret it was signed.
pub proof fn access_token_needs_access_secret(
    config: &JwtTokenConfig,
    token: Seq<char>,
    now: Timestamp,
    verified: Result<JwtTokenClaims, ApiError>,
)
    requires
        JwtService::access_token_verified(config, token, now, verified),
        token_claims(token, config.access_token_secret@) is None,
    ensures
        verified matches Err(e) && e.is(Some(UNAUTHORIZED), ErrorKind::JwtErrValidationAccessToken),
{
}

/// Refresh tokens are read under the refresh secret and no other: a token
/// that does not read under it is refused as invalid, with whatever
/// secret it was signed.
pub proof fn refresh_token_needs_refresh_secret(
    config: &JwtTokenConfig,
    token: Seq<char>,
    now: Timestamp,
    verified: Result<JwtTokenClaims, ApiError>,
)
    requires
        JwtService::refresh_token_verified(config, token, now, verified),
        token_claims(token, config.refresh_token_secret@) is None,
    ensures
        verified matches Err(e) && e.is_plain(ErrorKind::JwtErrValidationRefreshToken),
{
}

/// A token whose expiry lies in the past is refused as expired, though
/// its signature is valid. This holds for an expiry that is a second of
/// the calendar.
pub proof fn expired_token_is_refused(
    config: &JwtTokenConfig,
    token: Seq<char>,
    claims: ClaimSet,
    now: Timestamp,
    as_access: Result<JwtTokenClaims, ApiError>,
    as_refresh: Result<JwtTokenClaims, ApiError>,
)
    requires
        representable(claims.exp),
        (Timestamp { secs: claims.exp, nanos: 0 }).earlier_than(&now),
    ensures
        (token_claims(token, config.access_token_secret@) == Some(claims)
            && JwtService::access_token_verified(config, token, now, as_access)) ==> (
        as_access matches Err(e) && e.is(Some(UNAUTHORIZED), ErrorKind::JwtErrExpiredAccessToken)),
        (token_claims(token, config.refresh_token_secret@) == Some(claims)
            && JwtService::refresh_token_verified(config, token, now, as_refresh)) ==> (
        as_refresh matches Err(e) && e.is_plain(ErrorKind::JwtErrExpiredRefreshToken)),
{
}

/// The tokens of a login follow the configuration. The access token that
/// goes with the session to be stored is for the user, without a session,
/// and lives for the configured minutes. The refresh token of the response
/// is for the user and the stored session, and lives for the configured
/// days.
pub proof fn login_tokens_follow_the_configuration(
    config: &JwtTokenConfig,
    step: LoginStep,
    now: Timestamp,
    session_id: Seq<char>,
    action: LoginAction,
)
    requires
        config.covers_access(now),
        config.covers_refresh(now),
        AuthService::login_decided(config, step, now, session_id, action),
    ensures
        match action {
            LoginAction::StoreSession { user, access_token, session } => {
                &&& token_claims(access_token@, config.access_token_secret@) matches Some(claims)
                &&& claims.sub == user.id
                &&& claims.token_uuid is None
                &&& claims.exp - claims.iat == config.access_token_ttl * SECONDS_PER_MINUTE
                &&& session.user_id == user.id
                &&& session.uuid@ == session_id
            },
            LoginAction::Respond(response) => {
                &&& step matches LoginStep::SessionStored { stored: Ok(session), .. }
                &&& token_claims(response.refresh_token@, config.refresh_token_secret@) matches Some(
                    claims,
                )
                &&& claims.sub == response.user.id
                &&& claims.token_uuid == Some(session.uuid@)
                &&& claims.exp - claims.iat == config.refresh_token_ttl * SECONDS_PER_DAY
            },
            _ => true,
        },
{
}

/// A refresh request that presents a token goes on only with the grant
/// type `refresh_token`, letter for letter: without a grant type it fails
/// as one that requires it, with any other as one whose grant type is
/// invalid.
pub proof fn refresh_needs_the_grant_type(
    config: &JwtTokenConfig,
    cookie: Option<String>,
    request: AccessTokenRequest,
    now: Timestamp,
    action: RefreshAction,
)
    requires
        AuthService::presented_token(cookie, request) is Some,
        AuthService::refresh_decided(config, RefreshStep::Request { cookie, request }, now, action),
    ensures
        request.grant_type is None ==> AuthService::refresh_fails(
            action,
            ErrorKind::AuthGrantTypeRequired,
        ),
        (request.grant_type matches Some(grant_type) && grant_type@ != GRANT_TYPE_REFRESH_TOKEN@)
            ==> AuthService::refresh_fails(action, ErrorKind::AuthGrantTypeInvalid),
        !(action is Fail) ==> (request.grant_type matches Some(grant_type) && grant_type@
            == GRANT_TYPE_REFRESH_TOKEN@),
{
}

/// A revoked session makes the refresh fail, at any time and so whatever
/// the expiry of the token: no access token is issued.
pub proof fn revoked_session_fails_refresh(
    config: &JwtTokenConfig,
    user_id: i64,
    session: RefreshToken,
    now: Timestamp,
    action: RefreshAction,
)
    requires
        session.revoked == Some(true),
        AuthService::refresh_decided(
            config,
            RefreshStep::SessionFound { user_id, found: Ok(session) },
            now,
            action,
        ),
    ensures
        AuthService::refresh_fails(action, ErrorKind::AuthRefreshTokenRevoked),
        !(action is Respond),
{
}

/// A token that is already validated makes the email validation fail as
/// already validated: the token is not stored again and the user is not
/// activated.
pub proof fn validated_token_fails_validation(
    user_id: i64,
    token: Token,
    now: Timestamp,
    action: EmailValidationAction,
)
    requires
        token.validated,
        AuthService::email_validation_decided(
            EmailValidationStep::TokenFound { user_id, found: Ok(Some(token)) },
            now,
            action,
        ),
    ensures
        AuthService::validation_fails(action, ErrorKind::TknErrAlreadyValidated),
        !(action is MarkValidated),
        !(action is ActivateUser),
{
}

/// A token past its expiry that was never validated makes the email
/// validation fail as already expired.
pub proof fn expired_token_fails_validation(
    user_id: i64,
    token: Token,
    now: Timestamp,
    action: EmailValidationAction,
)
    requires
        !token.validated,
        TokenService::expired(&token, now),
        AuthService::email_validation_decided(
            EmailValidationStep::TokenFound { user_id, found: Ok(Some(token)) },
            now,
            action,
        ),
    ensures
        AuthService::validation_fails(action, ErrorKind::TknErrAlreadyExpired),
        !(action is MarkValidated),
{
}

/// Validation is a one-way transition: a token that comes out of the
/// check is validated, and checking it again fails as already validated.
pub proof fn validation_happens_once(
    token: Token,
    first: Timestamp,
    second: Timestamp,
    marked: Token,
    again: Result<Token, ApiError>,
)
    requires
        TokenService::checked(token, first, Ok(marked)),
        TokenService::checked(marked, second, again),
    ensures
        marked.validated,
        again matches Err(e) && e.is_plain(ErrorKind::TknErrAlreadyValidated),
{
}

} // verus!
