use vstd::prelude::*;

use crate::exception::{ApiError, ErrorKind};
use crate::model::{InsertRefreshToken, Timestamp};
use crate::util::clock::current_time;
use crate::util::random::{is_session_id, random_session_id};

verus! {

/// What identifies a stored refresh session: its user and its identifier.
#[derive(Debug)]
pub struct SessionKey {
    pub user_id: i64,
    pub uuid: String,
}

/// Creates refresh sessions and names the one a refresh token refers to.
#[derive(Debug)]
pub struct RefreshTokenService;

impl RefreshTokenService {
    /// The session row for `user_id` with the identifier `uuid`, created
    /// at `now`. A new session is never revoked: the row carries no
    /// revocation.
    pub fn new_session(user_id: i64, uuid: String, now: Timestamp) -> (session: InsertRefreshToken)
        ensures
            session.user_id == user_id,
            session.uuid == uuid,
            session.created_at == now,
    {
        InsertRefreshToken { uuid, created_at: now, user_id }
    }

    /// A session row for `user_id` with a fresh random identifier, created
    /// at the present moment.
    pub fn create(user_id: i64) -> (session: InsertRefreshToken)
        ensures
            session.user_id == user_id,
            is_session_id(session.uuid@),
            session.created_at.wf(),
    {
        let uuid = random_session_id();
        Self::new_session(user_id, uuid, current_time())
    }

    /// The key under which the session of a refresh token is stored. A
    /// token that names no session has none.
    pub fn find_by_uuid(user_id: i64, token_uuid: Option<String>) -> (key: Result<
        SessionKey,
        ApiError,
    >)
        ensures
            match token_uuid {
                Some(uuid) => key matches Ok(k) && k.user_id == user_id && k.uuid == uuid,
                None => key matches Err(e) && e.is_plain(ErrorKind::RtknTokenUuidRequired),
            },
    {
        match token_uuid {
            Some(uuid) => Ok(SessionKey { user_id, uuid }),
            None => Err(ApiError::new(ErrorKind::RtknTokenUuidRequired)),
        }
    }
}

} // verus!
