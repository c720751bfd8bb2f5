use rasrme_api::exception::{ApiError, ApiFieldError, ErrorKind, NOT_FOUND, UNAUTHORIZED};

#[test]
fn kinds_have_their_codes_and_messages() {
    let table = [
        (ErrorKind::ErrDbConnectionError, "G9000", "Error when connecting to database."),
        (ErrorKind::ErrDbTransactionError, "G9001", "Error when trying an operation into database."),
        (ErrorKind::ErrHyperError, "G0000", "Error when forwarding a request."),
        (ErrorKind::ErrInvalidRequest, "G0001", "Invalid request"),
        (ErrorKind::ErrInvalidEmailRegex, "G0002", "Email regex is invalid."),
        (ErrorKind::ErrTemplateError, "G0003", "Error to retrieve a template."),
        (ErrorKind::PgErrPageRequired, "PG0001", "Param page is required."),
        (ErrorKind::PgErrPageSizeRequired, "PG0002", "Param pageSize is required."),
        (ErrorKind::ErrRequiredField, "F0001", "This field is required."),
        (ErrorKind::ErrMinSize, "F0002", "This field must has a minimum amount of characters."),
        (ErrorKind::ErrInvalidEmail, "F0003", "Email isn't valid."),
        (ErrorKind::ErrInvalidPassword, "F0004", "Password isn't valid."),
        (
            ErrorKind::ErrConfirmPasswordDiffPassword,
            "F0005",
            "Confirm password needs to be equal to password.",
        ),
        (ErrorKind::ErrPasswordHash, "F0006", "Error when encrypt password."),
        (ErrorKind::UsrErrFindAllPaginated, "USR0001", "Error when search users with pagination"),
        (ErrorKind::UsrErrFindById, "USR0002", "Error when search an user by id."),
        (ErrorKind::UsrErrInserting, "USR0003", "Error when insert an user."),
        (ErrorKind::UsrErrUpdating, "USR0004", "Error when update an user."),
        (ErrorKind::UsrErrDelete, "USR0005", "Error when delete an user."),
        (ErrorKind::UsrErrNotFound, "USR0006", "User not found."),
        (ErrorKind::UsrErrFindByEmail, "USR0007", "Error when search an user by email."),
        (ErrorKind::UsrErrValidateEmail, "USR0008", "Error when validate an user email."),
        (ErrorKind::TknErrFindById, "TKN0001", "Error when search a token by id."),
        (ErrorKind::TknErrFindByToken, "TKN0002", "Error when search a token by token."),
        (ErrorKind::TknErrInserting, "TKN0003", "Error when insert a token."),
        (ErrorKind::TknErrNotFound, "TKN0004", "Token not found."),
        (ErrorKind::TknErrValidating, "TKN0005", "Error when validate a token."),
        (ErrorKind::TknErrAlreadyValidated, "TKN0006", "Token already validated."),
        (ErrorKind::TknErrAlreadyExpired, "TKN0007", "Token already expired."),
        (ErrorKind::AuthEmailRequired, "AUTH0001", "Email is required."),
        (ErrorKind::AuthTokenRequired, "AUTH0002", "Token is required."),
        (ErrorKind::AuthEmailAndPasswordRequired, "AUTH0003", "Email and password are required."),
        (ErrorKind::AuthInvalidLogin, "AUTH0004", "Invalid email or password."),
        (ErrorKind::AuthInactiveUser, "AUTH0005", "Inactive user."),
        (ErrorKind::AuthRefreshTokenRequired, "AUTH0006", "Refresh token is required."),
        (ErrorKind::AuthGrantTypeRequired, "AUTH0007", "Grant type is required."),
        (ErrorKind::AuthGrantTypeInvalid, "AUTH0008", "Grant type is wrong."),
        (ErrorKind::AuthRefreshTokenRevoked, "AUTH0009", "Refresh token already revoked."),
        (ErrorKind::JwtErrGeneratingAccessToken, "JWT0001", "Error when generate an access token."),
        (ErrorKind::JwtErrGeneratingRefreshToken, "JWT0002", "Error when generate a refresh token."),
        (
            ErrorKind::JwtErrValidationRefreshToken,
            "JWT0003",
            "Error when validating a refresh token.",
        ),
        (ErrorKind::JwtErrExpiredRefreshToken, "JWT0004", "Refresh token already expired."),
        (ErrorKind::JwtErrInvalidExpirationTimestamp, "JWT0005", "Invalid expiration timestamp."),
        (ErrorKind::JwtAccessTokenRequired, "JWT0006", "Access token required."),
        (ErrorKind::JwtErrValidationAccessToken, "JWT0007", "Invalid access token."),
        (ErrorKind::JwtErrExpiredAccessToken, "JWT0008", "Access token already expired."),
        (ErrorKind::RtknErrInserting, "RTKN0001", "Error when insert a refresh token."),
        (ErrorKind::RtknTokenUuidRequired, "RTKN0002", "Token uuid is required."),
        (ErrorKind::RtknErrFindingRefreshToken, "RTKN0003", "Error when finding a refresh token."),
    ];
    for (kind, code, message) in table {
        let pair = kind.code();
        assert_eq!(pair.0, code);
        assert_eq!(pair.1, message);
    }
    for (i, (_, code, _)) in table.iter().enumerate() {
        for (_, other, _) in &table[i + 1..] {
            assert_ne!(code, other);
        }
    }
}

#[test]
fn errors_carry_kind_status_and_fields() {
    let plain = ApiError::new(ErrorKind::AuthInvalidLogin);
    assert_eq!((plain.kind, plain.status), (ErrorKind::AuthInvalidLogin, None));
    assert!(plain.field_errors.is_empty());
    assert_eq!(plain.code().0, "AUTH0004");
    let fixed = ApiError::new_with_status(UNAUTHORIZED, ErrorKind::JwtAccessTokenRequired);
    assert_eq!((fixed.kind, fixed.status), (ErrorKind::JwtAccessTokenRequired, Some(401)));
    assert!(fixed.field_errors.is_empty());
    assert_eq!(NOT_FOUND, 404);
    let fields = vec![
        ApiFieldError::new(ErrorKind::ErrRequiredField, "user.email".to_string()),
        ApiFieldError::new_with_min_size(ErrorKind::ErrMinSize, "user.lastName".to_string(), 2),
    ];
    let invalid = ApiError::new_with_field_errors(ErrorKind::ErrInvalidRequest, fields);
    assert_eq!((invalid.kind, invalid.status), (ErrorKind::ErrInvalidRequest, None));
    assert_eq!(invalid.field_errors.len(), 2);
    assert_eq!(invalid.field_errors[0].kind, ErrorKind::ErrRequiredField);
    assert_eq!(invalid.field_errors[0].field, "user.email");
    assert_eq!(invalid.field_errors[0].min_size, None);
    assert_eq!(invalid.field_errors[0].code().0, "F0001");
    assert_eq!(invalid.field_errors[1].min_size, Some(2));
    assert_eq!(invalid.field_errors[1].code().1, "This field must has a minimum amount of characters.");
}
