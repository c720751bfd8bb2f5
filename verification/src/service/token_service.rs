use vstd::prelude::*;

use crate::exception::{ApiError, ErrorKind};
use crate::model::timestamp::SECONDS_PER_DAY;
use crate::model::{InsertToken, Timestamp, Token, TokenType, User};
use crate::util::clock::current_time;
use crate::util::random::{is_code, random_code};

verus! {

/// The number of characters of a validation code.
pub const CODE_LENGTH: usize = 6;

/// Creates and checks the one-time codes that validate an email address.
pub struct TokenService;

impl TokenService {
    /// Holds when `now` lies after the expiry of `token`. A token without
    /// an expiry never expires.
    pub open spec fn expired(token: &Token, now: Timestamp) -> bool {
        token.expire_at matches Some(expire_at) && expire_at.earlier_than(&now)
    }

    /// Holds when `result` is what checking `token` at `now` gives: a
    /// validated token is refused, then an expired one; any other comes
    /// back marked as validated at `now`, and is otherwise unchanged.
    pub open spec fn checked(token: Token, now: Timestamp, result: Result<Token, ApiError>) -> bool {
        if token.validated {
            result matches Err(e) && e.is_plain(ErrorKind::TknErrAlreadyValidated)
        } else if Self::expired(&token, now) {
            result matches Err(e) && e.is_plain(ErrorKind::TknErrAlreadyExpired)
        } else {
            &&& result matches Ok(t)
            &&& t.validated
            &&& t.validated_at == Some(now)
            &&& t.id == token.id
            &&& t.user_id == token.user_id
            &&& t.token == token.token
            &&& t.token_type == token.token_type
            &&& t.created_at == token.created_at
            &&& t.expire_at == token.expire_at
        }
    }

    /// Holds when `result` is what looking up and checking a token at
    /// `now` gives: a token that was not found is reported as such.
    pub open spec fn found_and_checked(
        found: Option<Token>,
        now: Timestamp,
        result: Result<Token, ApiError>,
    ) -> bool {
        match found {
            Some(token) => Self::checked(token, now, result),
            None => result matches Err(e) && e.is_plain(ErrorKind::TknErrNotFound),
        }
    }

    /// The email validation token of the user `user_id` with the code
    /// `code`, created at `now`: not yet validated, and good for one day.
    pub fn new_email_validation_token(user_id: i64, code: String, now: Timestamp) -> (token:
        InsertToken)
        requires
            now.secs + SECONDS_PER_DAY <= i64::MAX,
        ensures
            token.user_id == user_id,
            token.token == code,
            token.token_type == TokenType::UserEmailActivation,
            token.created_at == now,
            token.expire_at.secs == now.secs + SECONDS_PER_DAY,
            token.expire_at.nanos == now.nanos,
    {
        InsertToken {
            user_id,
            token: code,
            token_type: TokenType::UserEmailActivation,
            created_at: now,
            expire_at: now.plus_seconds(SECONDS_PER_DAY),
        }
    }

    /// An email validation token for `user` with a fresh random code of
    /// six digits and letters, created at the present moment and good for
    /// one day.
    pub fn create_user_email_validation_token(user: &User) -> (token: InsertToken)
        ensures
            token.user_id == user.id,
            is_code(token.token@, CODE_LENGTH as nat),
            token.token_type == TokenType::UserEmailActivation,
            token.created_at.wf(),
            token.expire_at.secs == token.created_at.secs + SECONDS_PER_DAY,
            token.expire_at.nanos == token.created_at.nanos,
    {
        let code = random_code(CODE_LENGTH);
        Self::new_email_validation_token(user.id, code, current_time())
    }

    /// The token that a lookup found, or the failure to report where it
    /// found none.
    pub fn find_by_user_id_and_token_and_token_type(found: Option<Token>) -> (result: Result<
        Token,
        ApiError,
    >)
        ensures
            match found {
                Some(token) => result == Ok::<Token, ApiError>(token),
                None => result matches Err(e) && e.is_plain(ErrorKind::TknErrNotFound),
            },
    {
        match found {
            Some(token) => Ok(token),
            None => Err(ApiError::new(ErrorKind::TknErrNotFound)),
        }
    }

    /// Checks `token` as of the clock reading `now` and marks it as
    /// validated.
    pub fn validate_at(token: Token, now: Timestamp) -> (result: Result<Token, ApiError>)
        ensures
            Self::checked(token, now, result),
    {
        if token.validated {
            return Err(ApiError::new(ErrorKind::TknErrAlreadyValidated));
        }
        let expired = match &token.expire_at {
            Some(expire_at) => now.is_after(expire_at),
            None => false,
        };
        if expired {
            return Err(ApiError::new(ErrorKind::TknErrAlreadyExpired));
        }
        let mut token = token;
        token.validated = true;
        token.validated_at = Some(now);
        Ok(token)
    }

    /// Checks the token that a lookup found as of the clock reading `now`
    /// and marks it as validated.
    pub fn check_email_validation_token_at(found: Option<Token>, now: Timestamp) -> (result:
        Result<Token, ApiError>)
        ensures
            Self::found_and_checked(found, now, result),
    {
        let token = Self::find_by_user_id_and_token_and_token_type(found)?;
        Self::validate_at(token, now)
    }

    /// Checks the token that a lookup found against the present moment
    /// and marks it as validated.
    pub fn check_email_validation_token(found: Option<Token>) -> (result: Result<Token, ApiError>)
        ensures
            exists|now: Timestamp| now.wf() && #[trigger] Self::found_and_checked(found, now, result),
    {
        let now = current_time();
        Self::check_email_validation_token_at(found, now)
    }
}

} // verus!
