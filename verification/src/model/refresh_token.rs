use vstd::prelude::*;

use super::timestamp::Timestamp;

verus! {

/// A refresh session that is about to be stored.
#[derive(Debug)]
pub struct InsertRefreshToken {
    pub uuid: String,
    pub created_at: Timestamp,
    pub user_id: i64,
}

/// A stored refresh session. A refresh token is honoured only while its
/// session exists and is not revoked.
#[derive(Debug)]
pub struct RefreshToken {
    pub id: i64,
    pub uuid: String,
    pub revoked: Option<bool>,
    pub created_at: Timestamp,
    pub revoked_at: Option<Timestamp>,
    pub user_id: i64,
}

impl RefreshToken {
    /// Holds when the session has been revoked.
    pub open spec fn spec_is_revoked(&self) -> bool {
        self.revoked == Some(true)
    }

    /// Whether the session has been revoked.
    pub fn is_revoked(&self) -> (revoked: bool)
        ensures
            revoked == self.spec_is_revoked(),
    {
        match self.revoked {
            Some(revoked) => revoked,
            None => false,
        }
    }
}

} // verus!
