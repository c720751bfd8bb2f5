use vstd::prelude::*;
use vstd::string::{StrSliceExecFns, StringSliceAdditionalSpecFns};

use crate::model::timestamp::{
    Timestamp, MAX_SPAN_SECONDS, SECONDS_PER_DAY, SECONDS_PER_MINUTE,
};

verus! {

/// How long a validation token lives, in days.
pub struct TokenConfig {
    pub token_expire_days: i64,
}

/// What the token codec works with: one secret for access tokens, another
/// for refresh tokens, and how long each kind of token lives.
pub struct JwtTokenConfig {
    /// Secret that signs access tokens.
    pub access_token_secret: Vec<u8>,
    /// Secret that signs refresh tokens.
    pub refresh_token_secret: Vec<u8>,
    /// Lifetime of an access token, in minutes.
    pub access_token_ttl: i64,
    /// Lifetime of a refresh token, in days.
    pub refresh_token_ttl: i64,
}

impl JwtTokenConfig {
    /// Holds when both lifetimes, taken in seconds, are spans the engine can
    /// add to a clock reading.
    pub open spec fn ttl_in_range(access_token_ttl: i64, refresh_token_ttl: i64) -> bool {
        &&& -MAX_SPAN_SECONDS <= access_token_ttl * SECONDS_PER_MINUTE <= MAX_SPAN_SECONDS
        &&& -MAX_SPAN_SECONDS <= refresh_token_ttl * SECONDS_PER_DAY <= MAX_SPAN_SECONDS
    }

    /// A configuration whose lifetimes are in range.
    pub open spec fn wf(&self) -> bool {
        Self::ttl_in_range(self.access_token_ttl, self.refresh_token_ttl)
    }

    /// Holds when an access token can be issued at `now`: the lifetimes
    /// are in range and the expiry is a number the machine can hold. Every
    /// reading of the clock is such a `now`.
    pub open spec fn covers_access(&self, now: Timestamp) -> bool {
        &&& self.wf()
        &&& i64::MIN <= now.secs + self.access_token_ttl * SECONDS_PER_MINUTE <= i64::MAX
    }

    /// Holds when a refresh token can be issued at `now`: the lifetimes
    /// are in range and the expiry is a number the machine can hold. Every
    /// reading of the clock is such a `now`.
    pub open spec fn covers_refresh(&self, now: Timestamp) -> bool {
        &&& self.wf()
        &&& i64::MIN <= now.secs + self.refresh_token_ttl * SECONDS_PER_DAY <= i64::MAX
    }

    /// Whether the two lifetimes are in range, so that [`JwtTokenConfig::config`]
    /// may be called with them.
    pub fn accepts(access_token_ttl: i64, refresh_token_ttl: i64) -> (ok: bool)
        ensures
            ok == Self::ttl_in_range(access_token_ttl, refresh_token_ttl),
    {
        let max_minutes: i64 = MAX_SPAN_SECONDS / SECONDS_PER_MINUTE;
        let max_days: i64 = MAX_SPAN_SECONDS / SECONDS_PER_DAY;
        -max_minutes <= access_token_ttl && access_token_ttl <= max_minutes && -max_days
            <= refresh_token_ttl && refresh_token_ttl <= max_days
    }

    /// The configuration with the bytes of the two secrets and the two
    /// lifetimes.
    pub fn config(
        access_token_secret_key: &str,
        refresh_token_secret_key: &str,
        access_token_ttl: i64,
        refresh_token_ttl: i64,
    ) -> (config: JwtTokenConfig)
        requires
            Self::ttl_in_range(access_token_ttl, refresh_token_ttl),
        ensures
            config.wf(),
            config.access_token_secret@ == access_token_secret_key.spec_bytes(),
            config.refresh_token_secret@ == refresh_token_secret_key.spec_bytes(),
            config.access_token_ttl == access_token_ttl,
            config.refresh_token_ttl == refresh_token_ttl,
    {
        JwtTokenConfig {
            access_token_secret: access_token_secret_key.as_bytes_vec(),
            refresh_token_secret: refresh_token_secret_key.as_bytes_vec(),
            access_token_ttl,
            refresh_token_ttl,
        }
    }
}

} // verus!
