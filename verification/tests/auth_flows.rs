use rasrme_api::config::JwtTokenConfig;
use rasrme_api::exception::{ApiError, ErrorKind, NOT_FOUND};
use rasrme_api::model::{
    AccessTokenRequest, EmailValidationRequest, InsertRefreshToken, LoginRequest, RefreshToken,
    Timestamp, Token, TokenType, User,
};
use rasrme_api::service::{
    AuthService, CredentialVerifier, EmailValidationAction, EmailValidationStep, JwtService,
    LoginAction, LoginStep, RefreshAction, RefreshStep, RefreshTokenService, TokenService,
    UserService,
};

const NOW: i64 = 1_700_000_000;
const PASSWORD: &str = "correctbatteryhorsestapler";
const PASSWORD_HASH: &str = "$2b$04$EGdrhbKUv8Oc9vGiXX0HQOxSg445d458Muh7DAHskb6QbtCvdxcie";

fn config() -> JwtTokenConfig {
    JwtTokenConfig::config("access-secret", "refresh-secret", 15, 7)
}

fn at(secs: i64) -> Timestamp {
    Timestamp { secs, nanos: 0 }
}

fn user(active: bool) -> User {
    User {
        id: 7,
        first_name: "ALICE".to_string(),
        last_name: None,
        complete_name: Some("ALICE".to_string()),
        email: "alice@example.com".to_string(),
        password: PASSWORD_HASH.to_string(),
        active,
        deleted: None,
        fcm_token: None,
        created_at: at(NOW - 100),
        updated_at: at(NOW - 100),
        deleted_at: None,
    }
}

fn stored(session: InsertRefreshToken, revoked: Option<bool>) -> RefreshToken {
    RefreshToken {
        id: 1,
        uuid: session.uuid,
        revoked,
        created_at: session.created_at,
        revoked_at: None,
        user_id: session.user_id,
    }
}

fn token(validated: bool, expire_at: Option<Timestamp>) -> Token {
    Token {
        id: 3,
        user_id: 7,
        token: "a1B2c3".to_string(),
        token_type: TokenType::UserEmailActivation,
        validated,
        created_at: at(NOW - 10),
        validated_at: None,
        expire_at,
    }
}

fn login_kind(action: LoginAction) -> ErrorKind {
    match action {
        LoginAction::Fail(error) => {
            assert_eq!(error.status, None);
            assert!(error.field_errors.is_empty());
            error.kind
        }
        other => panic!("the login went on: {:?}", other),
    }
}

fn refresh_error(action: RefreshAction) -> ApiError {
    match action {
        RefreshAction::Fail(error) => error,
        other => panic!("the refresh went on: {:?}", other),
    }
}

fn validation_error(action: EmailValidationAction) -> ApiError {
    match action {
        EmailValidationAction::Fail(error) => error,
        other => panic!("the validation went on: {:?}", other),
    }
}

fn login_request(email: Option<&str>, password: Option<&str>) -> LoginStep {
    LoginStep::Request(LoginRequest {
        email: email.map(|e| e.to_string()),
        password: password.map(|p| p.to_string()),
    })
}

fn refresh_request(cookie: Option<String>, body: Option<String>, grant: Option<&str>) -> RefreshStep {
    RefreshStep::Request {
        cookie,
        request: AccessTokenRequest { refreh_token: body, grant_type: grant.map(|g| g.to_string()) },
    }
}

/// Runs a whole login against a store that holds `found` and keeps every
/// session it is given.
fn run_login(found: Option<User>, password: &str) -> (LoginAction, Vec<RefreshToken>) {
    let config = config();
    let mut sessions: Vec<RefreshToken> = Vec::new();
    let mut action = AuthService::login(&config, login_request(Some("alice@example.com"), Some(password)));
    let mut found = Some(found);
    loop {
        action = match action {
            LoginAction::FindUser { email, password } => {
                assert_eq!(email, "alice@example.com");
                let found = found.take().expect("one lookup only");
                AuthService::login(&config, LoginStep::UserFound { password, found: Ok(found) })
            }
            LoginAction::StoreSession { user, access_token, session } => {
                let row = stored(session, None);
                sessions.push(RefreshToken {
                    id: row.id,
                    uuid: row.uuid.clone(),
                    revoked: row.revoked,
                    created_at: row.created_at,
                    revoked_at: row.revoked_at,
                    user_id: row.user_id,
                });
                AuthService::login(
                    &config,
                    LoginStep::SessionStored { user, access_token, stored: Ok(row) },
                )
            }
            done => return (done, sessions),
        };
    }
}

#[test]
fn password_check_accepts_the_right_password_only() {
    assert!(CredentialVerifier::verify(PASSWORD, PASSWORD_HASH));
    assert!(!CredentialVerifier::verify("wrong", PASSWORD_HASH));
    assert!(!CredentialVerifier::verify(PASSWORD_HASH, PASSWORD));
    assert!(!CredentialVerifier::verify(PASSWORD, "not a hash"));
    assert!(!CredentialVerifier::verify(PASSWORD, ""));
    assert!(CredentialVerifier::verify(
        "password",
        "$2a$04$UuTkLRZZ6QofpDOlMz32MuuxEHA43WOemOYHPz6.SjsVsyO1tDU96"
    ));
}

#[test]
fn password_check_counts_an_engine_error_as_a_mismatch() {
    assert!(CredentialVerifier::accepts(Some(true)));
    assert!(!CredentialVerifier::accepts(Some(false)));
    assert!(!CredentialVerifier::accepts(None));
}

#[test]
fn login_requires_email_and_password() {
    let config = config();
    for (email, password) in [(None, None), (Some("a@b.co"), None), (None, Some("x"))] {
        let action = AuthService::login(&config, login_request(email, password));
        assert_eq!(login_kind(action), ErrorKind::AuthEmailAndPasswordRequired);
    }
}

#[test]
fn login_asks_for_the_user_by_email() {
    let config = config();
    let action = AuthService::login(&config, login_request(Some("a@b.co"), Some("pw")));
    match action {
        LoginAction::FindUser { email, password } => {
            assert_eq!(email, "a@b.co");
            assert_eq!(password, "pw");
        }
        other => panic!("unexpected: {:?}", other),
    }
}

#[test]
fn login_folds_every_lookup_failure_into_invalid_login() {
    let config = config();
    let missing = LoginStep::UserFound { password: PASSWORD.to_string(), found: Ok(None) };
    assert_eq!(login_kind(AuthService::login(&config, missing)), ErrorKind::AuthInvalidLogin);
    let broken = LoginStep::UserFound {
        password: PASSWORD.to_string(),
        found: Err(ApiError::new(ErrorKind::UsrErrFindByEmail)),
    };
    assert_eq!(login_kind(AuthService::login(&config, broken)), ErrorKind::AuthInvalidLogin);
}

#[test]
fn login_refuses_an_inactive_user_before_the_password() {
    let (action, sessions) = run_login(Some(user(false)), PASSWORD);
    assert_eq!(login_kind(action), ErrorKind::AuthInactiveUser);
    assert!(sessions.is_empty());
    let (action, _) = run_login(Some(user(false)), "wrong");
    assert_eq!(login_kind(action), ErrorKind::AuthInactiveUser);
}

#[test]
fn login_refuses_a_wrong_password() {
    let (action, sessions) = run_login(Some(user(true)), "wrong");
    assert_eq!(login_kind(action), ErrorKind::AuthInvalidLogin);
    assert!(sessions.is_empty());
}

#[test]
fn login_with_correct_credentials_issues_both_tokens() {
    let config = config();
    let (action, sessions) = run_login(Some(user(true)), PASSWORD);
    let response = match action {
        LoginAction::Respond(response) => response,
        other => panic!("unexpected: {:?}", other),
    };
    assert_eq!(response.user.id, 7);
    assert_eq!(response.user.email, "alice@example.com");
    let access = JwtService::verify_access_token(&config, &response.access_token).unwrap();
    assert_eq!(access.sub, 7);
    assert_eq!(access.token_uuid, None);
    assert_eq!(access.exp - access.iat, 15 * 60);
    let refresh = JwtService::verify_refresh_token(&config, &response.refresh_token).unwrap();
    assert_eq!(refresh.sub, 7);
    assert_eq!(refresh.exp - refresh.iat, 7 * 24 * 60 * 60);
    assert_eq!(sessions.len(), 1);
    assert_eq!(sessions[0].user_id, 7);
    assert_eq!(sessions[0].revoked, None);
    assert_eq!(refresh.token_uuid, Some(sessions[0].uuid.clone()));
    assert_eq!(sessions[0].uuid.len(), 36);
}

#[test]
fn login_at_a_given_time_uses_the_given_session_id() {
    let config = config();
    let step = LoginStep::UserFound { password: PASSWORD.to_string(), found: Ok(Some(user(true))) };
    let action = AuthService::login_at(&config, step, at(NOW), "sid".to_string());
    let (user, access_token, session) = match action {
        LoginAction::StoreSession { user, access_token, session } => (user, access_token, session),
        other => panic!("unexpected: {:?}", other),
    };
    assert_eq!(session.uuid, "sid");
    assert_eq!(session.user_id, 7);
    assert_eq!(session.created_at, at(NOW));
    assert_eq!(access_token, JwtService::generate_access_token_at(&config, 7, at(NOW)).unwrap());
    let step = LoginStep::SessionStored { user, access_token, stored: Ok(stored(session, None)) };
    match AuthService::login_at(&config, step, at(NOW + 1), String::new()) {
        LoginAction::Respond(response) => {
            let expected =
                JwtService::generate_refresh_token_at(&config, 7, "sid".to_string(), at(NOW + 1));
            assert_eq!(response.refresh_token, expected.unwrap());
        }
        other => panic!("unexpected: {:?}", other),
    }
}

#[test]
fn login_passes_on_the_failure_to_store_the_session() {
    let config = config();
    let step = LoginStep::SessionStored {
        user: user(true),
        access_token: "t".to_string(),
        stored: Err(ApiError::new(ErrorKind::RtknErrInserting)),
    };
    assert_eq!(login_kind(AuthService::login(&config, step)), ErrorKind::RtknErrInserting);
}

#[test]
fn new_sessions_are_unrevoked_and_distinct() {
    let first = RefreshTokenService::create(7);
    let second = RefreshTokenService::create(7);
    assert_eq!(first.user_id, 7);
    assert_ne!(first.uuid, second.uuid);
    for session in [&first, &second] {
        let id: Vec<char> = session.uuid.chars().collect();
        assert_eq!(id.len(), 36);
        for (i, c) in id.iter().enumerate() {
            if i == 8 || i == 13 || i == 18 || i == 23 {
                assert_eq!(*c, '-');
            } else {
                assert!(c.is_ascii_digit() || ('a'..='f').contains(c));
            }
        }
        assert!(session.created_at.secs > 1_600_000_000);
        assert!(session.created_at.nanos < 1_000_000_000);
    }
    let fixed = RefreshTokenService::new_session(9, "x".to_string(), at(5));
    assert_eq!((fixed.user_id, fixed.uuid.as_str(), fixed.created_at), (9, "x", at(5)));
}

#[test]
fn session_key_needs_a_session_in_the_token() {
    let key = RefreshTokenService::find_by_uuid(7, Some("sid".to_string())).unwrap();
    assert_eq!((key.user_id, key.uuid.as_str()), (7, "sid"));
    let error = RefreshTokenService::find_by_uuid(7, None).unwrap_err();
    assert_eq!(error.kind, ErrorKind::RtknTokenUuidRequired);
    assert_eq!(error.status, None);
}

#[test]
fn revocation_reads_only_true_as_revoked() {
    let session = InsertRefreshToken { uuid: "s".to_string(), created_at: at(1), user_id: 1 };
    assert!(stored(session, Some(true)).is_revoked());
    let session = InsertRefreshToken { uuid: "s".to_string(), created_at: at(1), user_id: 1 };
    assert!(!stored(session, Some(false)).is_revoked());
    let session = InsertRefreshToken { uuid: "s".to_string(), created_at: at(1), user_id: 1 };
    assert!(!stored(session, None).is_revoked());
}

#[test]
fn refresh_requires_a_refresh_token() {
    let config = config();
    for grant in [None, Some("refresh_token"), Some("other")] {
        let action = AuthService::refresh_access_token(&config, refresh_request(None, None, grant));
        assert_eq!(refresh_error(action).kind, ErrorKind::AuthRefreshTokenRequired);
    }
}

#[test]
fn refresh_requires_the_exact_grant_type() {
    let config = config();
    let token =
        JwtService::generate_refresh_token_at(&config, 7, "sid".to_string(), at(NOW)).unwrap();
    let step = refresh_request(Some(token.clone()), None, None);
    let action = AuthService::refresh_access_token_at(&config, step, at(NOW));
    assert_eq!(refresh_error(action).kind, ErrorKind::AuthGrantTypeRequired);
    for grant in ["", "refresh", "Refresh_Token", "refresh_token ", " refresh_token", "password"] {
        let step = refresh_request(Some(token.clone()), None, Some(grant));
        let action = AuthService::refresh_access_token_at(&config, step, at(NOW));
        let error = refresh_error(action);
        assert_eq!(error.kind, ErrorKind::AuthGrantTypeInvalid);
        assert_eq!(error.status, None);
    }
    let step = refresh_request(Some(token), None, Some("refresh_token"));
    match AuthService::refresh_access_token_at(&config, step, at(NOW)) {
        RefreshAction::FindSession(key) => {
            assert_eq!((key.user_id, key.uuid.as_str()), (7, "sid"));
        }
        other => panic!("unexpected: {:?}", other),
    }
}

#[test]
fn refresh_prefers_the_cookie_to_the_body() {
    let config = config();
    let good =
        JwtService::generate_refresh_token_at(&config, 7, "sid".to_string(), at(NOW)).unwrap();
    let step = refresh_request(Some(good.clone()), Some("junk".to_string()), Some("refresh_token"));
    assert!(matches!(
        AuthService::refresh_access_token_at(&config, step, at(NOW)),
        RefreshAction::FindSession(_)
    ));
    let step = refresh_request(Some("junk".to_string()), Some(good.clone()), Some("refresh_token"));
    let action = AuthService::refresh_access_token_at(&config, step, at(NOW));
    assert_eq!(refresh_error(action).kind, ErrorKind::JwtErrValidationRefreshToken);
    let step = refresh_request(None, Some(good), Some("refresh_token"));
    assert!(matches!(
        AuthService::refresh_access_token_at(&config, step, at(NOW)),
        RefreshAction::FindSession(_)
    ));
}

#[test]
fn refresh_passes_on_the_failures_of_the_token() {
    let config = config();
    let token =
        JwtService::generate_refresh_token_at(&config, 7, "sid".to_string(), at(NOW)).unwrap();
    let step = refresh_request(Some(token), None, Some("refresh_token"));
    let action = AuthService::refresh_access_token_at(&config, step, at(NOW + 8 * 86_400));
    assert_eq!(refresh_error(action).kind, ErrorKind::JwtErrExpiredRefreshToken);
    let access = JwtService::generate_access_token_at(&config, 7, at(NOW)).unwrap();
    let step = refresh_request(Some(access), None, Some("refresh_token"));
    let action = AuthService::refresh_access_token_at(&config, step, at(NOW));
    assert_eq!(refresh_error(action).kind, ErrorKind::JwtErrValidationRefreshToken);
}

#[test]
fn refresh_with_a_token_that_names_no_session_fails() {
    let same = JwtTokenConfig::config("one-secret", "one-secret", 15, 7);
    let access = JwtService::generate_access_token_at(&same, 7, at(NOW)).unwrap();
    let step = refresh_request(Some(access), None, Some("refresh_token"));
    let action = AuthService::refresh_access_token_at(&same, step, at(NOW));
    assert_eq!(refresh_error(action).kind, ErrorKind::RtknTokenUuidRequired);
}

#[test]
fn refresh_with_a_live_session_issues_an_access_token() {
    let config = config();
    let session = InsertRefreshToken { uuid: "sid".to_string(), created_at: at(NOW), user_id: 7 };
    for revoked in [None, Some(false)] {
        let row = stored(
            InsertRefreshToken {
                uuid: session.uuid.clone(),
                created_at: session.created_at,
                user_id: session.user_id,
            },
            revoked,
        );
        let step = RefreshStep::SessionFound { user_id: 7, found: Ok(row) };
        match AuthService::refresh_access_token_at(&config, step, at(NOW)) {
            RefreshAction::Respond(token) => {
                let claims = JwtService::verify_access_token_at(&config, &token, at(NOW)).unwrap();
                assert_eq!(claims.sub, 7);
                assert_eq!(claims.exp, NOW + 900);
                assert_eq!(claims.token_uuid, None);
            }
            other => panic!("unexpected: {:?}", other),
        }
    }
}

#[test]
fn refresh_with_a_revoked_session_fails_and_issues_nothing() {
    let config = config();
    let token = JwtService::generate_refresh_token(&config, 7, "sid".to_string()).unwrap();
    let step = refresh_request(Some(token), None, Some("refresh_token"));
    let key = match AuthService::refresh_access_token(&config, step) {
        RefreshAction::FindSession(key) => key,
        other => panic!("unexpected: {:?}", other),
    };
    let row = RefreshToken {
        id: 1,
        uuid: key.uuid,
        revoked: Some(true),
        created_at: at(NOW),
        revoked_at: Some(at(NOW + 1)),
        user_id: key.user_id,
    };
    let step = RefreshStep::SessionFound { user_id: key.user_id, found: Ok(row) };
    let error = refresh_error(AuthService::refresh_access_token(&config, step));
    assert_eq!(error.kind, ErrorKind::AuthRefreshTokenRevoked);
    assert_eq!(error.status, None);
}

#[test]
fn refresh_passes_on_a_missing_session() {
    let config = config();
    let step = RefreshStep::SessionFound {
        user_id: 7,
        found: Err(ApiError::new(ErrorKind::RtknErrFindingRefreshToken)),
    };
    let error = refresh_error(AuthService::refresh_access_token(&config, step));
    assert_eq!(error.kind, ErrorKind::RtknErrFindingRefreshToken);
}

#[test]
fn email_validation_requires_email_then_token() {
    let request = |email: Option<&str>, token: Option<&str>| {
        EmailValidationStep::Request(EmailValidationRequest {
            email: email.map(|e| e.to_string()),
            token: token.map(|t| t.to_string()),
        })
    };
    let error = validation_error(AuthService::email_validation(request(None, None)));
    assert_eq!(error.kind, ErrorKind::AuthEmailRequired);
    let error = validation_error(AuthService::email_validation(request(None, Some("a1B2c3"))));
    assert_eq!(error.kind, ErrorKind::AuthEmailRequired);
    let error = validation_error(AuthService::email_validation(request(Some("a@b.co"), None)));
    assert_eq!(error.kind, ErrorKind::AuthTokenRequired);
    match AuthService::email_validation(request(Some("a@b.co"), Some("a1B2c3"))) {
        EmailValidationAction::FindUser { email, token } => {
            assert_eq!((email.as_str(), token.as_str()), ("a@b.co", "a1B2c3"));
        }
        other => panic!("unexpected: {:?}", other),
    }
}

#[test]
fn email_validation_passes_on_an_unknown_user() {
    let step = EmailValidationStep::UserFound { token: "a1B2c3".to_string(), found: Ok(None) };
    let error = validation_error(AuthService::email_validation(step));
    assert_eq!(error.kind, ErrorKind::UsrErrNotFound);
    assert_eq!(error.status, Some(NOT_FOUND));
    let step = EmailValidationStep::UserFound {
        token: "a1B2c3".to_string(),
        found: Err(ApiError::new(ErrorKind::UsrErrFindByEmail)),
    };
    let error = validation_error(AuthService::email_validation(step));
    assert_eq!(error.kind, ErrorKind::UsrErrFindByEmail);
}

#[test]
fn email_validation_looks_the_token_up_as_email_activation() {
    let step =
        EmailValidationStep::UserFound { token: "a1B2c3".to_string(), found: Ok(Some(user(false))) };
    match AuthService::email_validation(step) {
        EmailValidationAction::FindToken { user_id, token, token_type } => {
            assert_eq!(user_id, 7);
            assert_eq!(token, "a1B2c3");
            assert_eq!(token_type, TokenType::UserEmailActivation);
        }
        other => panic!("unexpected: {:?}", other),
    }
}

#[test]
fn email_validation_of_an_unknown_token_fails() {
    let step = EmailValidationStep::TokenFound { user_id: 7, found: Ok(None) };
    let error = validation_error(AuthService::email_validation(step));
    assert_eq!(error.kind, ErrorKind::TknErrNotFound);
    let step = EmailValidationStep::TokenFound {
        user_id: 7,
        found: Err(ApiError::new(ErrorKind::TknErrFindByToken)),
    };
    let error = validation_error(AuthService::email_validation(step));
    assert_eq!(error.kind, ErrorKind::TknErrFindByToken);
}

#[test]
fn email_validation_of_a_validated_token_fails() {
    for expire_at in [None, Some(at(NOW + 100)), Some(at(NOW - 100))] {
        let step =
            EmailValidationStep::TokenFound { user_id: 7, found: Ok(Some(token(true, expire_at))) };
        let error = validation_error(AuthService::email_validation_at(step, at(NOW)));
        assert_eq!(error.kind, ErrorKind::TknErrAlreadyValidated);
        assert_eq!(error.status, None);
    }
}

#[test]
fn email_validation_of_an_expired_token_fails() {
    let step = EmailValidationStep::TokenFound {
        user_id: 7,
        found: Ok(Some(token(false, Some(at(NOW - 1))))),
    };
    let error = validation_error(AuthService::email_validation_at(step, at(NOW)));
    assert_eq!(error.kind, ErrorKind::TknErrAlreadyExpired);
    let step = EmailValidationStep::TokenFound {
        user_id: 7,
        found: Ok(Some(token(false, Some(at(1_000))))),
    };
    let error = validation_error(AuthService::email_validation(step));
    assert_eq!(error.kind, ErrorKind::TknErrAlreadyExpired);
}

#[test]
fn email_validation_marks_the_token_then_activates_the_user() {
    let step = EmailValidationStep::TokenFound {
        user_id: 7,
        found: Ok(Some(token(false, Some(at(NOW))))),
    };
    let marked = match AuthService::email_validation_at(step, at(NOW)) {
        EmailValidationAction::MarkValidated { user_id, token } => {
            assert_eq!(user_id, 7);
            token
        }
        other => panic!("unexpected: {:?}", other),
    };
    assert!(marked.validated);
    assert_eq!(marked.validated_at, Some(at(NOW)));
    assert_eq!((marked.id, marked.user_id, marked.token.as_str()), (3, 7, "a1B2c3"));
    assert_eq!(marked.expire_at, Some(at(NOW)));
    let step = EmailValidationStep::TokenMarked { user_id: 7, marked: Ok(()) };
    match AuthService::email_validation(step) {
        EmailValidationAction::ActivateUser { user_id } => assert_eq!(user_id, 7),
        other => panic!("unexpected: {:?}", other),
    }
    let step = EmailValidationStep::UserActivated(Ok(()));
    assert!(matches!(AuthService::email_validation(step), EmailValidationAction::Done));
}

#[test]
fn email_validation_passes_on_the_failures_of_the_writes() {
    let step = EmailValidationStep::TokenMarked {
        user_id: 7,
        marked: Err(ApiError::new(ErrorKind::TknErrValidating)),
    };
    let error = validation_error(AuthService::email_validation(step));
    assert_eq!(error.kind, ErrorKind::TknErrValidating);
    let step =
        EmailValidationStep::UserActivated(Err(ApiError::new(ErrorKind::UsrErrValidateEmail)));
    let error = validation_error(AuthService::email_validation(step));
    assert_eq!(error.kind, ErrorKind::UsrErrValidateEmail);
}

#[test]
fn second_validation_with_the_same_token_fails() {
    let first = TokenService::check_email_validation_token(Some(token(false, None))).unwrap();
    assert!(first.validated);
    let stamp = first.validated_at.unwrap();
    assert!(stamp.secs > 1_600_000_000);
    let step = EmailValidationStep::TokenFound { user_id: 7, found: Ok(Some(first)) };
    let error = validation_error(AuthService::email_validation(step));
    assert_eq!(error.kind, ErrorKind::TknErrAlreadyValidated);
}

#[test]
fn token_without_expiry_never_expires() {
    let checked = TokenService::validate_at(token(false, None), at(i64::MAX)).unwrap();
    assert!(checked.validated);
    assert_eq!(checked.validated_at, Some(at(i64::MAX)));
}

#[test]
fn token_expires_only_after_its_expiry() {
    let expiry = Timestamp { secs: NOW, nanos: 500 };
    let on_time = TokenService::validate_at(token(false, Some(expiry)), expiry);
    assert!(on_time.is_ok());
    let late = Timestamp { secs: NOW, nanos: 501 };
    let error = TokenService::validate_at(token(false, Some(expiry)), late).unwrap_err();
    assert_eq!(error.kind, ErrorKind::TknErrAlreadyExpired);
}

#[test]
fn token_lookup_reports_a_missing_token() {
    let error = TokenService::find_by_user_id_and_token_and_token_type(None).unwrap_err();
    assert_eq!(error.kind, ErrorKind::TknErrNotFound);
    assert_eq!(error.status, None);
    let found =
        TokenService::find_by_user_id_and_token_and_token_type(Some(token(false, None))).unwrap();
    assert_eq!(found.id, 3);
    assert!(!found.validated);
    let error = TokenService::check_email_validation_token_at(None, at(NOW)).unwrap_err();
    assert_eq!(error.kind, ErrorKind::TknErrNotFound);
}

#[test]
fn user_lookup_reports_a_missing_user() {
    for result in [UserService::find_by_id(None), UserService::find_by_email(None)] {
        let error = result.unwrap_err();
        assert_eq!(error.kind, ErrorKind::UsrErrNotFound);
        assert_eq!(error.status, Some(NOT_FOUND));
    }
    assert_eq!(UserService::find_by_id(Some(user(true))).unwrap().id, 7);
    assert_eq!(UserService::find_by_email(Some(user(true))).unwrap().email, "alice@example.com");
}
