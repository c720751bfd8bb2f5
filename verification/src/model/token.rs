use vstd::prelude::*;

use super::timestamp::Timestamp;

verus! {

/// What a validation token is for.
#[derive(Clone, Copy, PartialEq, Eq, Debug, Structural)]
pub enum TokenType {
    Empty,
    UserEmailActivation,
}

/// A validation token that is about to be stored.
#[derive(Debug)]
pub struct InsertToken {
    pub token: String,
    pub token_type: TokenType,
    pub user_id: i64,
    pub created_at: Timestamp,
    pub expire_at: Timestamp,
}

/// A stored validation token: a one-time code that proves control of an
/// email address.
#[derive(Debug)]
pub struct Token {
    pub id: i64,
    pub user_id: i64,
    pub token: String,
    pub token_type: TokenType,
    pub validated: bool,
    pub created_at: Timestamp,
    pub validated_at: Option<Timestamp>,
    pub expire_at: Option<Timestamp>,
}

/// The claims a signed token carries. Access tokens have no `token_uuid`;
/// refresh tokens name their session in it.
#[derive(Debug)]
pub struct JwtTokenClaims {
    pub sub: i64,
    pub token_uuid: Option<String>,
    pub exp: i64,
    pub iat: i64,
    pub nbf: i64,
}

/// The value of one member of a signed claim set.
#[derive(Debug)]
pub enum ClaimValue {
    /// The member is there without a value.
    Null,
    /// An integer.
    Integer(i64),
    /// A string.
    Text(String),
    /// A value of any other kind.
    Other,
}

/// The value of a member as a mathematical value.
pub ghost enum ClaimView {
    Null,
    Integer(i64),
    Text(Seq<char>),
    Other,
}

impl View for ClaimValue {
    type V = ClaimView;

    open spec fn view(&self) -> ClaimView {
        match self {
            ClaimValue::Null => ClaimView::Null,
            ClaimValue::Integer(n) => ClaimView::Integer(*n),
            ClaimValue::Text(text) => ClaimView::Text(text@),
            ClaimValue::Other => ClaimView::Other,
        }
    }
}

/// The claims of a token as mathematical values.
pub ghost struct ClaimSet {
    pub sub: i64,
    pub token_uuid: Option<Seq<char>>,
    pub exp: i64,
    pub iat: i64,
    pub nbf: i64,
}

impl View for JwtTokenClaims {
    type V = ClaimSet;

    open spec fn view(&self) -> ClaimSet {
        ClaimSet {
            sub: self.sub,
            token_uuid: match self.token_uuid {
                Some(uuid) => Some(uuid@),
                None => None,
            },
            exp: self.exp,
            iat: self.iat,
            nbf: self.nbf,
        }
    }
}

} // verus!
