use vstd::prelude::*;

verus! {

/// A stable machine-readable code (first) and its message (second).
pub struct ApiErrorCode(pub &'static str, pub &'static str);

/// Every failure the engine can report. Each kind has one code and one
/// message, given by [`ErrorKind::code`].
#[derive(Clone, Copy, PartialEq, Eq, Debug, Structural)]
pub enum ErrorKind {
    // Generic errors.
    ErrDbConnectionError,
    ErrDbTransactionError,
    ErrHyperError,
    ErrInvalidRequest,
    ErrInvalidEmailRegex,
    ErrTemplateError,
    // Pagination errors.
    PgErrPageRequired,
    PgErrPageSizeRequired,
    // Field errors.
    ErrRequiredField,
    ErrMinSize,
    ErrInvalidEmail,
    ErrInvalidPassword,
    ErrConfirmPasswordDiffPassword,
    ErrPasswordHash,
    // User errors.
    UsrErrFindAllPaginated,
    UsrErrFindById,
    UsrErrInserting,
    UsrErrUpdating,
    UsrErrDelete,
    UsrErrNotFound,
    UsrErrFindByEmail,
    UsrErrValidateEmail,
    // Token errors.
    TknErrFindById,
    TknErrFindByToken,
    TknErrInserting,
    TknErrNotFound,
    TknErrValidating,
    TknErrAlreadyValidated,
    TknErrAlreadyExpired,
    // Auth errors.
    AuthEmailRequired,
    AuthTokenRequired,
    AuthEmailAndPasswordRequired,
    AuthInvalidLogin,
    AuthInactiveUser,
    AuthRefreshTokenRequired,
    AuthGrantTypeRequired,
    AuthGrantTypeInvalid,
    AuthRefreshTokenRevoked,
    // Jwt errors.
    JwtErrGeneratingAccessToken,
    JwtErrGeneratingRefreshToken,
    JwtErrValidationRefreshToken,
    JwtErrExpiredRefreshToken,
    JwtErrInvalidExpirationTimestamp,
    JwtAccessTokenRequired,
    JwtErrValidationAccessToken,
    JwtErrExpiredAccessToken,
    // Refresh token errors.
    RtknErrInserting,
    RtknTokenUuidRequired,
    RtknErrFindingRefreshToken,
}

impl ErrorKind {
    /// The code and message of this kind, as a table.
    pub open spec fn spec_code(self) -> ApiErrorCode {
        match self {
            ErrorKind::ErrDbConnectionError => ApiErrorCode("G9000", "Error when connecting to database."),
            ErrorKind::ErrDbTransactionError => ApiErrorCode("G9001", "Error when trying an operation into database."),
            ErrorKind::ErrHyperError => ApiErrorCode("G0000", "Error when forwarding a request."),
            ErrorKind::ErrInvalidRequest => ApiErrorCode("G0001", "Invalid request"),
            ErrorKind::ErrInvalidEmailRegex => ApiErrorCode("G0002", "Email regex is invalid."),
            ErrorKind::ErrTemplateError => ApiErrorCode("G0003", "Error to retrieve a template."),
            ErrorKind::PgErrPageRequired => ApiErrorCode("PG0001", "Param page is required."),
            ErrorKind::PgErrPageSizeRequired => ApiErrorCode("PG0002", "Param pageSize is required."),
            ErrorKind::ErrRequiredField => ApiErrorCode("F0001", "This field is required."),
            ErrorKind::ErrMinSize => ApiErrorCode("F0002", "This field must has a minimum amount of characters."),
            ErrorKind::ErrInvalidEmail => ApiErrorCode("F0003", "Email isn't valid."),
            ErrorKind::ErrInvalidPassword => ApiErrorCode("F0004", "Password isn't valid."),
            ErrorKind::ErrConfirmPasswordDiffPassword => ApiErrorCode("F0005", "Confirm password needs to be equal to password."),
            ErrorKind::ErrPasswordHash => ApiErrorCode("F0006", "Error when encrypt password."),
            ErrorKind::UsrErrFindAllPaginated => ApiErrorCode("USR0001", "Error when search users with pagination"),
            ErrorKind::UsrErrFindById => ApiErrorCode("USR0002", "Error when search an user by id."),
            ErrorKind::UsrErrInserting => ApiErrorCode("USR0003", "Error when insert an user."),
            ErrorKind::UsrErrUpdating => ApiErrorCode("USR0004", "Error when update an user."),
            ErrorKind::UsrErrDelete => ApiErrorCode("USR0005", "Error when delete an user."),
            ErrorKind::UsrErrNotFound => ApiErrorCode("USR0006", "User not found."),
            ErrorKind::UsrErrFindByEmail => ApiErrorCode("USR0007", "Error when search an user by email."),
            ErrorKind::UsrErrValidateEmail => ApiErrorCode("USR0008", "Error when validate an user email."),
            ErrorKind::TknErrFindById => ApiErrorCode("TKN0001", "Error when search a token by id."),
            ErrorKind::TknErrFindByToken => ApiErrorCode("TKN0002", "Error when search a token by token."),
            ErrorKind::TknErrInserting => ApiErrorCode("TKN0003", "Error when insert a token."),
            ErrorKind::TknErrNotFound => ApiErrorCode("TKN0004", "Token not found."),
            ErrorKind::TknErrValidating => ApiErrorCode("TKN0005", "Error when validate a token."),
            ErrorKind::TknErrAlreadyValidated => ApiErrorCode("TKN0006", "Token already validated."),
            ErrorKind::TknErrAlreadyExpired => ApiErrorCode("TKN0007", "Token already expired."),
            ErrorKind::AuthEmailRequired => ApiErrorCode("AUTH0001", "Email is required."),
            ErrorKind::AuthTokenRequired => ApiErrorCode("AUTH0002", "Token is required."),
            ErrorKind::AuthEmailAndPasswordRequired => ApiErrorCode("AUTH0003", "Email and password are required."),
            ErrorKind::AuthInvalidLogin => ApiErrorCode("AUTH0004", "Invalid email or password."),
            ErrorKind::AuthInactiveUser => ApiErrorCode("AUTH0005", "Inactive user."),
            ErrorKind::AuthRefreshTokenRequired => ApiErrorCode("AUTH0006", "Refresh token is required."),
            ErrorKind::AuthGrantTypeRequired => ApiErrorCode("AUTH0007", "Grant type is required."),
            ErrorKind::AuthGrantTypeInvalid => ApiErrorCode("AUTH0008", "Grant type is wrong."),
            ErrorKind::AuthRefreshTokenRevoked => ApiErrorCode("AUTH0009", "Refresh token already revoked."),
            ErrorKind::JwtErrGeneratingAccessToken => ApiErrorCode("JWT0001", "Error when generate an access token."),
            ErrorKind::JwtErrGeneratingRefreshToken => ApiErrorCode("JWT0002", "Error when generate a refresh token."),
            ErrorKind::JwtErrValidationRefreshToken => ApiErrorCode("JWT0003", "Error when validating a refresh token."),
            ErrorKind::JwtErrExpiredRefreshToken => ApiErrorCode("JWT0004", "Refresh token already expired."),
            ErrorKind::JwtErrInvalidExpirationTimestamp => ApiErrorCode("JWT0005", "Invalid expiration timestamp."),
            ErrorKind::JwtAccessTokenRequired => ApiErrorCode("JWT0006", "Access token required."),
            ErrorKind::JwtErrValidationAccessToken => ApiErrorCode("JWT0007", "Invalid access token."),
            ErrorKind::JwtErrExpiredAccessToken => ApiErrorCode("JWT0008", "Access token already expired."),
            ErrorKind::RtknErrInserting => ApiErrorCode("RTKN0001", "Error when insert a refresh token."),
            ErrorKind::RtknTokenUuidRequired => ApiErrorCode("RTKN0002", "Token uuid is required."),
            ErrorKind::RtknErrFindingRefreshToken => ApiErrorCode("RTKN0003", "Error when finding a refresh token."),
        }
    }

    /// The code and message of this kind.
    pub fn code(&self) -> (c: ApiErrorCode)
        ensures
            c == self.spec_code(),
    {
        match self {
            ErrorKind::ErrDbConnectionError => ApiErrorCode("G9000", "Error when connecting to database."),
            ErrorKind::ErrDbTransactionError => ApiErrorCode("G9001", "Error when trying an operation into database."),
            ErrorKind::ErrHyperError => ApiErrorCode("G0000", "Error when forwarding a request."),
            ErrorKind::ErrInvalidRequest => ApiErrorCode("G0001", "Invalid request"),
            ErrorKind::ErrInvalidEmailRegex => ApiErrorCode("G0002", "Email regex is invalid."),
            ErrorKind::ErrTemplateError => ApiErrorCode("G0003", "Error to retrieve a template."),
            ErrorKind::PgErrPageRequired => ApiErrorCode("PG0001", "Param page is required."),
            ErrorKind::PgErrPageSizeRequired => ApiErrorCode("PG0002", "Param pageSize is required."),
            ErrorKind::ErrRequiredField => ApiErrorCode("F0001", "This field is required."),
            ErrorKind::ErrMinSize => ApiErrorCode("F0002", "This field must has a minimum amount of characters."),
            ErrorKind::ErrInvalidEmail => ApiErrorCode("F0003", "Email isn't valid."),
            ErrorKind::ErrInvalidPassword => ApiErrorCode("F0004", "Password isn't valid."),
            ErrorKind::ErrConfirmPasswordDiffPassword => ApiErrorCode("F0005", "Confirm password needs to be equal to password."),
            ErrorKind::ErrPasswordHash => ApiErrorCode("F0006", "Error when encrypt password."),
            ErrorKind::UsrErrFindAllPaginated => ApiErrorCode("USR0001", "Error when search users with pagination"),
            ErrorKind::UsrErrFindById => ApiErrorCode("USR0002", "Error when search an user by id."),
            ErrorKind::UsrErrInserting => ApiErrorCode("USR0003", "Error when insert an user."),
            ErrorKind::UsrErrUpdating => ApiErrorCode("USR0004", "Error when update an user."),
            ErrorKind::UsrErrDelete => ApiErrorCode("USR0005", "Error when delete an user."),
            ErrorKind::UsrErrNotFound => ApiErrorCode("USR0006", "User not found."),
            ErrorKind::UsrErrFindByEmail => ApiErrorCode("USR0007", "Error when search an user by email."),
            ErrorKind::UsrErrValidateEmail => ApiErrorCode("USR0008", "Error when validate an user email."),
            ErrorKind::TknErrFindById => ApiErrorCode("TKN0001", "Error when search a token by id."),
            ErrorKind::TknErrFindByToken => ApiErrorCode("TKN0002", "Error when search a token by token."),
            ErrorKind::TknErrInserting => ApiErrorCode("TKN0003", "Error when insert a token."),
            ErrorKind::TknErrNotFound => ApiErrorCode("TKN0004", "Token not found."),
            ErrorKind::TknErrValidating => ApiErrorCode("TKN0005", "Error when validate a token."),
            ErrorKind::TknErrAlreadyValidated => ApiErrorCode("TKN0006", "Token already validated."),
            ErrorKind::TknErrAlreadyExpired => ApiErrorCode("TKN0007", "Token already expired."),
            ErrorKind::AuthEmailRequired => ApiErrorCode("AUTH0001", "Email is required."),
            ErrorKind::AuthTokenRequired => ApiErrorCode("AUTH0002", "Token is required."),
            ErrorKind::AuthEmailAndPasswordRequired => ApiErrorCode("AUTH0003", "Email and password are required."),
            ErrorKind::AuthInvalidLogin => ApiErrorCode("AUTH0004", "Invalid email or password."),
            ErrorKind::AuthInactiveUser => ApiErrorCode("AUTH0005", "Inactive user."),
            ErrorKind::AuthRefreshTokenRequired => ApiErrorCode("AUTH0006", "Refresh token is required."),
            ErrorKind::AuthGrantTypeRequired => ApiErrorCode("AUTH0007", "Grant type is required."),
            ErrorKind::AuthGrantTypeInvalid => ApiErrorCode("AUTH0008", "Grant type is wrong."),
            ErrorKind::AuthRefreshTokenRevoked => ApiErrorCode("AUTH0009", "Refresh token already revoked."),
            ErrorKind::JwtErrGeneratingAccessToken => ApiErrorCode("JWT0001", "Error when generate an access token."),
            ErrorKind::JwtErrGeneratingRefreshToken => ApiErrorCode("JWT0002", "Error when generate a refresh token."),
            ErrorKind::JwtErrValidationRefreshToken => ApiErrorCode("JWT0003", "Error when validating a refresh token."),
            ErrorKind::JwtErrExpiredRefreshToken => ApiErrorCode("JWT0004", "Refresh token already expired."),
            ErrorKind::JwtErrInvalidExpirationTimestamp => ApiErrorCode("JWT0005", "Invalid expiration timestamp."),
            ErrorKind::JwtAccessTokenRequired => ApiErrorCode("JWT0006", "Access token required."),
            ErrorKind::JwtErrValidationAccessToken => ApiErrorCode("JWT0007", "Invalid access token."),
            ErrorKind::JwtErrExpiredAccessToken => ApiErrorCode("JWT0008", "Access token already expired."),
            ErrorKind::RtknErrInserting => ApiErrorCode("RTKN0001", "Error when insert a refresh token."),
            ErrorKind::RtknTokenUuidRequired => ApiErrorCode("RTKN0002", "Token uuid is required."),
            ErrorKind::RtknErrFindingRefreshToken => ApiErrorCode("RTKN0003", "Error when finding a refresh token."),
        }
    }
}

} // verus!
