use jsonwebtoken::{decode, encode, DecodingKey, EncodingKey, Header, Validation};
use serde_json::Value;
use vstd::prelude::*;

use crate::config::JwtTokenConfig;
use crate::exception::{ApiError, ErrorKind, UNAUTHORIZED};
use crate::model::timestamp::{
    has_calendar_date, representable, Timestamp, SECONDS_PER_DAY, SECONDS_PER_MINUTE,
};
use crate::model::{ClaimSet, ClaimValue, ClaimView, JwtTokenClaims};
use crate::service::members::{
    claim_members, claim_members_of, claims_from_members, claims_of,
    lemma_claim_members_hold_the_claims, lemma_same_members_hold_the_same_claims, members_view,
    read_view, same_members, writable,
};
use crate::util::clock::current_time;
use crate::util::text::text_view;

verus! {

/// The token that `jsonwebtoken::encode` makes, under the default header,
/// of the JSON object with the given members, signed with a secret; `None`
/// where it reports an error.
pub uninterp spec fn signed_members(members: Seq<(Seq<char>, ClaimView)>, secret: Seq<u8>) -> Option<
    Seq<char>,
>;

/// The members of the JSON object that `jsonwebtoken::decode` reads from
/// a token under a secret, with no check against the clock; `None` where
/// it reports an error.
pub uninterp spec fn token_members(token: Seq<char>, secret: Seq<u8>) -> Option<
    Seq<(Seq<char>, ClaimView)>,
>;

/// The token for a set of claims under a secret: the one signed over the
/// members that stand for the claims.
pub open spec fn signed_token(claims: ClaimSet, secret: Seq<u8>) -> Option<Seq<char>> {
    signed_members(claim_members_of(claims), secret)
}

/// The claims that a token holds under a secret: those of its members,
/// where it reads under the secret and the members hold a set of claims.
pub open spec fn token_claims(token: Seq<char>, secret: Seq<u8>) -> Option<ClaimSet> {
    match token_members(token, secret) {
        Some(members) => claims_of(members),
        None => None,
    }
}

/// The view of an optional claim set.
pub open spec fn claims_view(claims: Option<JwtTokenClaims>) -> Option<ClaimSet> {
    match claims {
        Some(c) => Some(c@),
        None => None,
    }
}

/// Signs the JSON object with the given members with
/// `jsonwebtoken::encode`, under the default header (HS256) and the key
/// `EncodingKey::from_secret(secret)`. Each member is written under its
/// name: an integer as a number, a string as a string, anything else as
/// `null`. The result depends on the arguments alone. A token made of
/// nulls, integers and strings, without an audience, is one that
/// `jsonwebtoken::decode` reads under the same secret, and gives every
/// name the value that was written last under it: the signature is
/// recomputed from the same bytes and key, and such values survive the
/// JSON round trip.
#[verifier::external_body]
pub(crate) fn sign(members: &Vec<(String, ClaimValue)>, secret: &[u8]) -> (token: Option<String>)
    ensures
        text_view(token) == signed_members(members_view(members@), secret@),
        match token {
            Some(t) => writable(members_view(members@)) ==> (token_members(t@, secret@) matches Some(
                read,
            ) && same_members(read, members_view(members@))),
            None => true,
        },
{
    let mut body = serde_json::Map::new();
    for (name, value) in members {
        let written = match value {
            ClaimValue::Integer(n) => Value::from(*n),
            ClaimValue::Text(text) => Value::from(text.clone()),
            _ => Value::Null,
        };
        body.insert(name.clone(), written);
    }
    encode(&Header::default(), &body, &EncodingKey::from_secret(secret)).ok()
}

/// Reads `token` with `jsonwebtoken::decode`, under the key
/// `DecodingKey::from_secret(secret)` and the default validation (HS256)
/// with the expiry check and the required claims switched off, so that the
/// result depends on the arguments alone. The signature and the structure
/// are checked. The members of the object come back as they are: `null`,
/// an integer that fits 64 bits, a string, or a value of another kind.
#[verifier::external_body]
pub(crate) fn unseal(token: &str, secret: &[u8]) -> (members: Option<Vec<(String, ClaimValue)>>)
    ensures
        read_view(members) == token_members(token@, secret@),
{
    let mut rules = Validation::default();
    rules.validate_exp = false;
    rules.required_spec_claims.clear();
    let key = DecodingKey::from_secret(secret);
    let body = decode::<serde_json::Map<String, Value>>(token, &key, &rules).ok()?.claims;
    let plain = |value| match value {
        Value::Null => ClaimValue::Null,
        Value::String(text) => ClaimValue::Text(text),
        Value::Number(n) => n.as_i64().map_or(ClaimValue::Other, ClaimValue::Integer),
        _ => ClaimValue::Other,
    };
    Some(body.into_iter().map(|(name, value)| (name, plain(value))).collect())
}

/// What checking a decoded token against the clock comes to.
pub ghost enum Verdict {
    /// The signature or the structure was refused.
    Invalid,
    /// The expiry is no second of the calendar.
    Malformed,
    /// The expiry lies before the clock reading.
    Expired,
    /// The token stands, with these claims.
    Valid(ClaimSet),
}

/// The cookie that carries the access token.
pub const ACCESS_TOKEN_COOKIE: &'static str = "JWT";

/// The cookie that carries the refresh token.
pub const REFRESH_TOKEN_COOKIE: &'static str = "JWT_REFRESH_TOKEN";

impl JwtTokenClaims {
    /// Holds when `result` is what a request with the access token
    /// `access_token` in its cookie is granted at `now`: without a token
    /// nothing, else what verifying the token gives.
    pub open spec fn granted(
        config: &JwtTokenConfig,
        access_token: Option<String>,
        now: Timestamp,
        result: Result<JwtTokenClaims, ApiError>,
    ) -> bool {
        match access_token {
            None => result matches Err(e) && e.is(
                Some(UNAUTHORIZED),
                ErrorKind::JwtAccessTokenRequired,
            ),
            Some(token) => JwtService::access_token_verified(config, token@, now, result),
        }
    }

    /// The claims of the caller of a request, from the access token of
    /// its cookie, as of the clock reading `now`.
    pub fn from_request_parts_at(
        config: &JwtTokenConfig,
        access_token: Option<String>,
        now: Timestamp,
    ) -> (result: Result<JwtTokenClaims, ApiError>)
        ensures
            Self::granted(config, access_token, now, result),
    {
        match access_token {
            None => Err(
                ApiError::new_with_status(UNAUTHORIZED, ErrorKind::JwtAccessTokenRequired),
            ),
            Some(token) => JwtService::verify_access_token_at(config, token.as_str(), now),
        }
    }

    /// The claims of the caller of a request, from the access token of
    /// its cookie, checked against the present moment.
    pub fn from_request_parts(config: &JwtTokenConfig, access_token: Option<String>) -> (result:
        Result<JwtTokenClaims, ApiError>)
        ensures
            exists|now: Timestamp|
                now.wf() && #[trigger] Self::granted(config, access_token, now, result),
    {
        let now = current_time();
        Self::from_request_parts_at(config, access_token, now)
    }
}

/// Signs and verifies access and refresh tokens.
pub struct JwtService;

impl JwtService {
    /// The claims of an access token issued at `now` for `user_id`.
    pub open spec fn access_claims(user_id: i64, now: Timestamp, ttl_minutes: i64) -> ClaimSet {
        ClaimSet {
            sub: user_id,
            token_uuid: None,
            exp: (now.secs + ttl_minutes * SECONDS_PER_MINUTE) as i64,
            iat: now.secs,
            nbf: now.secs,
        }
    }

    /// The claims of a refresh token issued at `now` for `user_id` and the
    /// session `uuid`.
    pub open spec fn refresh_claims(
        user_id: i64,
        uuid: Seq<char>,
        now: Timestamp,
        ttl_days: i64,
    ) -> ClaimSet {
        ClaimSet {
            sub: user_id,
            token_uuid: Some(uuid),
            exp: (now.secs + ttl_days * SECONDS_PER_DAY) as i64,
            iat: now.secs,
            nbf: now.secs,
        }
    }

    /// Holds when `result` is what signing `claims` under `secret` gives:
    /// the token, which reads back as `claims`, or else the error `failure`.
    pub open spec fn issued(
        claims: ClaimSet,
        secret: Seq<u8>,
        failure: ErrorKind,
        result: Result<String, ApiError>,
    ) -> bool {
        match signed_token(claims, secret) {
            Some(token) => {
                &&& result matches Ok(t)
                &&& t@ == token
                &&& token_claims(token, secret) == Some(claims)
            },
            None => result matches Err(e) && e.is_plain(failure),
        }
    }

    /// Holds when `result` is the access token for `user_id` at `now`.
    pub open spec fn access_token_issued(
        config: &JwtTokenConfig,
        user_id: i64,
        now: Timestamp,
        result: Result<String, ApiError>,
    ) -> bool {
        Self::issued(
            Self::access_claims(user_id, now, config.access_token_ttl),
            config.access_token_secret@,
            ErrorKind::JwtErrGeneratingAccessToken,
            result,
        )
    }

    /// Holds when `result` is the refresh token for `user_id` and the
    /// session `uuid` at `now`.
    pub open spec fn refresh_token_issued(
        config: &JwtTokenConfig,
        user_id: i64,
        uuid: Seq<char>,
        now: Timestamp,
        result: Result<String, ApiError>,
    ) -> bool {
        Self::issued(
            Self::refresh_claims(user_id, uuid, now, config.refresh_token_ttl),
            config.refresh_token_secret@,
            ErrorKind::JwtErrGeneratingRefreshToken,
            result,
        )
    }

    /// A decoded token held against the clock: a failed decoding is
    /// invalid; an expiry outside the calendar is malformed; an expiry
    /// before `now` is expired; anything else stands.
    pub open spec fn verdict(decoded: Option<ClaimSet>, now: Timestamp) -> Verdict {
        match decoded {
            None => Verdict::Invalid,
            Some(claims) => if !representable(claims.exp) {
                Verdict::Malformed
            } else if (Timestamp { secs: claims.exp, nanos: 0 }).earlier_than(&now) {
                Verdict::Expired
            } else {
                Verdict::Valid(claims)
            },
        }
    }

    /// Holds when `result` reports `verdict`, with `status` on each error,
    /// `invalid` for a refused token and `expired` for one past its expiry.
    pub open spec fn reports(
        result: Result<JwtTokenClaims, ApiError>,
        verdict: Verdict,
        status: Option<u16>,
        invalid: ErrorKind,
        expired: ErrorKind,
    ) -> bool {
        match verdict {
            Verdict::Invalid => result matches Err(e) && e.is(status, invalid),
            Verdict::Malformed => result matches Err(e) && e.is(
                status,
                ErrorKind::JwtErrInvalidExpirationTimestamp,
            ),
            Verdict::Expired => result matches Err(e) && e.is(status, expired),
            Verdict::Valid(claims) => result matches Ok(c) && c@ == claims,
        }
    }

    /// Holds when `result` is what verifying the access token `token` at
    /// `now` gives.
    pub open spec fn access_token_verified(
        config: &JwtTokenConfig,
        token: Seq<char>,
        now: Timestamp,
        result: Result<JwtTokenClaims, ApiError>,
    ) -> bool {
        Self::reports(
            result,
            Self::verdict(token_claims(token, config.access_token_secret@), now),
            Some(UNAUTHORIZED),
            ErrorKind::JwtErrValidationAccessToken,
            ErrorKind::JwtErrExpiredAccessToken,
        )
    }

    /// Holds when `result` is what verifying the refresh token `token` at
    /// `now` gives.
    pub open spec fn refresh_token_verified(
        config: &JwtTokenConfig,
        token: Seq<char>,
        now: Timestamp,
        result: Result<JwtTokenClaims, ApiError>,
    ) -> bool {
        Self::reports(
            result,
            Self::verdict(token_claims(token, config.refresh_token_secret@), now),
            None,
            ErrorKind::JwtErrValidationRefreshToken,
            ErrorKind::JwtErrExpiredRefreshToken,
        )
    }

    /// Signs the members that stand for `claims` under `secret`. A token
    /// that comes back holds exactly these claims under the same secret.
    pub fn sign_claims(claims: &JwtTokenClaims, secret: &[u8]) -> (token: Option<String>)
        ensures
            text_view(token) == signed_token(claims@, secret@),
            token matches Some(t) ==> token_claims(t@, secret@) == Some(claims@),
    {
        let members = claim_members(claims);
        let token = sign(&members, secret);
        proof {
            lemma_claim_members_hold_the_claims(claims@);
            if token is Some {
                let read = token_members(token->0@, secret@)->0;
                lemma_same_members_hold_the_same_claims(read, claim_members_of(claims@));
            }
        }
        token
    }

    /// The claims that `token` holds under `secret`: nothing where the
    /// token does not read under the secret, or where its members hold no
    /// set of claims.
    pub fn read_claims(token: &str, secret: &[u8]) -> (claims: Option<JwtTokenClaims>)
        ensures
            claims_view(claims) == token_claims(token@, secret@),
    {
        match unseal(token, secret) {
            Some(members) => claims_from_members(&members),
            None => None,
        }
    }

    fn error(status: Option<u16>, kind: ErrorKind) -> (e: ApiError)
        ensures
            e.is(status, kind),
    {
        match status {
            Some(s) => ApiError::new_with_status(s, kind),
            None => ApiError::new(kind),
        }
    }

    fn check_claims(
        decoded: Option<JwtTokenClaims>,
        now: Timestamp,
        status: Option<u16>,
        invalid: ErrorKind,
        expired: ErrorKind,
    ) -> (result: Result<JwtTokenClaims, ApiError>)
        ensures
            Self::reports(
                result,
                Self::verdict(claims_view(decoded), now),
                status,
                invalid,
                expired,
            ),
    {
        match decoded {
            None => Err(Self::error(status, invalid)),
            Some(claims) => {
                if !has_calendar_date(claims.exp) {
                    Err(Self::error(status, ErrorKind::JwtErrInvalidExpirationTimestamp))
                } else if Timestamp::from_secs(claims.exp).is_before(&now) {
                    Err(Self::error(status, expired))
                } else {
                    Ok(claims)
                }
            },
        }
    }

    /// Checks the claims decoded from an access token against the clock
    /// reading `now`.
    pub fn check_access_claims(decoded: Option<JwtTokenClaims>, now: Timestamp) -> (result: Result<
        JwtTokenClaims,
        ApiError,
    >)
        ensures
            Self::reports(
                result,
                Self::verdict(claims_view(decoded), now),
                Some(UNAUTHORIZED),
                ErrorKind::JwtErrValidationAccessToken,
                ErrorKind::JwtErrExpiredAccessToken,
            ),
    {
        Self::check_claims(
            decoded,
            now,
            Some(UNAUTHORIZED),
            ErrorKind::JwtErrValidationAccessToken,
            ErrorKind::JwtErrExpiredAccessToken,
        )
    }

    /// Checks the claims decoded from a refresh token against the clock
    /// reading `now`.
    pub fn check_refresh_claims(decoded: Option<JwtTokenClaims>, now: Timestamp) -> (result:
        Result<JwtTokenClaims, ApiError>)
        ensures
            Self::reports(
                result,
                Self::verdict(claims_view(decoded), now),
                None,
                ErrorKind::JwtErrValidationRefreshToken,
                ErrorKind::JwtErrExpiredRefreshToken,
            ),
    {
        Self::check_claims(
            decoded,
            now,
            None,
            ErrorKind::JwtErrValidationRefreshToken,
            ErrorKind::JwtErrExpiredRefreshToken,
        )
    }

    /// Builds the claims of an access token issued at `now`.
    pub fn new_access_claims(user_id: i64, now: Timestamp, ttl_minutes: i64) -> (claims:
        JwtTokenClaims)
        requires
            i64::MIN <= ttl_minutes * SECONDS_PER_MINUTE <= i64::MAX,
            i64::MIN <= now.secs + ttl_minutes * SECONDS_PER_MINUTE <= i64::MAX,
        ensures
            claims@ == Self::access_claims(user_id, now, ttl_minutes),
    {
        JwtTokenClaims {
            sub: user_id,
            token_uuid: None,
            exp: now.secs + ttl_minutes * SECONDS_PER_MINUTE,
            iat: now.secs,
            nbf: now.secs,
        }
    }

    /// Builds the claims of a refresh token issued at `now` for the session
    /// `uuid`.
    pub fn new_refresh_claims(user_id: i64, uuid: String, now: Timestamp, ttl_days: i64) -> (claims:
        JwtTokenClaims)
        requires
            i64::MIN <= ttl_days * SECONDS_PER_DAY <= i64::MAX,
            i64::MIN <= now.secs + ttl_days * SECONDS_PER_DAY <= i64::MAX,
        ensures
            claims@ == Self::refresh_claims(user_id, uuid@, now, ttl_days),
    {
        JwtTokenClaims {
            sub: user_id,
            token_uuid: Some(uuid),
            exp: now.secs + ttl_days * SECONDS_PER_DAY,
            iat: now.secs,
            nbf: now.secs,
        }
    }

    /// The outcome of issuing an access token, from what the signing gave:
    /// the token, or the failure to report where there is none.
    pub fn access_token_from(signed: Option<String>) -> (result: Result<String, ApiError>)
        ensures
            match signed {
                Some(token) => result == Ok::<String, ApiError>(token),
                None => result matches Err(e) && e.is_plain(
                    ErrorKind::JwtErrGeneratingAccessToken,
                ),
            },
    {
        match signed {
            Some(token) => Ok(token),
            None => Err(ApiError::new(ErrorKind::JwtErrGeneratingAccessToken)),
        }
    }

    /// The outcome of issuing a refresh token, from what the signing gave:
    /// the token, or the failure to report where there is none.
    pub fn refresh_token_from(signed: Option<String>) -> (result: Result<String, ApiError>)
        ensures
            match signed {
                Some(token) => result == Ok::<String, ApiError>(token),
                None => result matches Err(e) && e.is_plain(
                    ErrorKind::JwtErrGeneratingRefreshToken,
                ),
            },
    {
        match signed {
            Some(token) => Ok(token),
            None => Err(ApiError::new(ErrorKind::JwtErrGeneratingRefreshToken)),
        }
    }

    /// Issues the access token for `user_id` as of the clock reading `now`.
    pub fn generate_access_token_at(config: &JwtTokenConfig, user_id: i64, now: Timestamp) -> (result:
        Result<String, ApiError>)
        requires
            config.covers_access(now),
        ensures
            Self::access_token_issued(config, user_id, now, result),
    {
        let claims = Self::new_access_claims(user_id, now, config.access_token_ttl);
        let signed = Self::sign_claims(&claims, config.access_token_secret.as_slice());
        Self::access_token_from(signed)
    }

    /// Issues the refresh token for `user_id` and the session `uuid` as of
    /// the clock reading `now`.
    pub fn generate_refresh_token_at(
        config: &JwtTokenConfig,
        user_id: i64,
        uuid: String,
        now: Timestamp,
    ) -> (result: Result<String, ApiError>)
        requires
            config.covers_refresh(now),
        ensures
            Self::refresh_token_issued(config, user_id, uuid@, now, result),
    {
        let claims = Self::new_refresh_claims(user_id, uuid, now, config.refresh_token_ttl);
        let signed = Self::sign_claims(&claims, config.refresh_token_secret.as_slice());
        Self::refresh_token_from(signed)
    }

    /// Verifies an access token as of the clock reading `now`.
    pub fn verify_access_token_at(config: &JwtTokenConfig, access_token: &str, now: Timestamp) -> (result:
        Result<JwtTokenClaims, ApiError>)
        ensures
            Self::access_token_verified(config, access_token@, now, result),
    {
        let decoded = Self::read_claims(access_token, config.access_token_secret.as_slice());
        Self::check_access_claims(decoded, now)
    }

    /// Verifies a refresh token as of the clock reading `now`.
    pub fn verify_refresh_token_at(config: &JwtTokenConfig, refresh_token: &str, now: Timestamp) -> (result:
        Result<JwtTokenClaims, ApiError>)
        ensures
            Self::refresh_token_verified(config, refresh_token@, now, result),
    {
        let decoded = Self::read_claims(refresh_token, config.refresh_token_secret.as_slice());
        Self::check_refresh_claims(decoded, now)
    }

    /// Issues an access token for `user_id`, valid from the present moment
    /// for the configured number of minutes.
    pub fn generate_access_token(config: &JwtTokenConfig, user_id: i64) -> (result: Result<
        String,
        ApiError,
    >)
        requires
            config.wf(),
        ensures
            exists|now: Timestamp|
                now.wf() && #[trigger] Self::access_token_issued(config, user_id, now, result),
    {
        let now = current_time();
        Self::generate_access_token_at(config, user_id, now)
    }

    /// Issues a refresh token for `user_id` and the session `uuid`, valid
    /// from the present moment for the configured number of days.
    pub fn generate_refresh_token(config: &JwtTokenConfig, user_id: i64, uuid: String) -> (result:
        Result<String, ApiError>)
        requires
            config.wf(),
        ensures
            exists|now: Timestamp|
                now.wf() && #[trigger] Self::refresh_token_issued(
                    config,
                    user_id,
                    uuid@,
                    now,
                    result,
                ),
    {
        let now = current_time();
        Self::generate_refresh_token_at(config, user_id, uuid, now)
    }

    /// Verifies a refresh token against the present moment.
    pub fn verify_refresh_token(config: &JwtTokenConfig, refresh_token: &str) -> (result: Result<
        JwtTokenClaims,
        ApiError,
    >)
        ensures
            exists|now: Timestamp|
                now.wf() && #[trigger] Self::refresh_token_verified(
                    config,
                    refresh_token@,
                    now,
                    result,
                ),
    {
        let now = current_time();
        Self::verify_refresh_token_at(config, refresh_token, now)
    }

    /// Verifies an access token against the present moment.
    pub fn verify_access_token(config: &JwtTokenConfig, access_token: &str) -> (result: Result<
        JwtTokenClaims,
        ApiError,
    >)
        ensures
            exists|now: Timestamp|
                now.wf() && #[trigger] Self::access_token_verified(
                    config,
                    access_token@,
                    now,
                    result,
                ),
    {
        let now = current_time();
        Self::verify_access_token_at(config, access_token, now)
    }
}

} // verus!
