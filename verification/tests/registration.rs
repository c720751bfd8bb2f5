use rasrme_api::exception::{ApiError, ApiFieldError, ErrorKind};
use rasrme_api::model::{Timestamp, Token, TokenType, User, UserRequest};
use rasrme_api::service::{CredentialVerifier, SaveAction, SaveStep, TokenService, UserService};
use rasrme_api::util::{validate_email, validate_password};

const NOW: i64 = 1_700_000_000;

fn at(secs: i64) -> Timestamp {
    Timestamp { secs, nanos: 0 }
}

fn some(text: &str) -> Option<String> {
    Some(text.to_string())
}

fn request() -> UserRequest {
    UserRequest {
        first_name: some("Alice"),
        last_name: some("Liddell"),
        complete_name: None,
        email: some("alice@example.com"),
        password: some("s3cret#pass"),
        confirm_password: some("s3cret#pass"),
        fcm_token: some("fcm"),
        active: Some(true),
        created_at: None,
        updated_at: None,
    }
}

fn user() -> User {
    User {
        id: 7,
        first_name: "ALICE".to_string(),
        last_name: some("LIDDELL"),
        complete_name: some("ALICE LIDDELL"),
        email: "alice@example.com".to_string(),
        password: "hash".to_string(),
        active: false,
        deleted: None,
        fcm_token: None,
        created_at: at(NOW),
        updated_at: at(NOW),
        deleted_at: None,
    }
}

fn fault(error: &ApiFieldError) -> (ErrorKind, &str, Option<usize>) {
    (error.kind, error.field.as_str(), error.min_size)
}

fn failure(action: SaveAction) -> ApiError {
    match action {
        SaveAction::Fail(error) => error,
        other => panic!("the registration went on: {:?}", other),
    }
}

#[test]
fn email_addresses() {
    for good in ["alice@example.com", "a@b.co", "a.b+c_d@sub-domain.example.org", "x1@y2.abcdef"] {
        assert!(validate_email(good), "{}", good);
    }
    for bad in ["", "alice", "alice@", "@example.com", "Alice@example.com", "a@b", "a@b.c",
        ".a@b.co", "a.@b.co", "a@-b.co", "a b@c.de"]
    {
        assert!(!validate_email(bad), "{}", bad);
    }
}

#[test]
fn passwords() {
    for good in ["s3cret#pass", "abcdef1@", "1234567a$", "%%%%%%a1", "longer-than-sixteen-1a@-characters"] {
        assert!(validate_password(good), "{}", good);
    }
    for bad in ["", "short1@", "nodigits@@", "NOLOWER1@", "nosymbol12", "abc1@"] {
        assert!(!validate_password(bad), "{}", bad);
    }
}

#[test]
fn first_name_must_have_three_bytes() {
    let mut entity = request();
    entity.first_name = some("Al");
    let error = entity.validate_first_name(true).unwrap_err();
    assert_eq!(fault(&error), (ErrorKind::ErrMinSize, "user.firstName", Some(3)));
    assert_eq!(entity.first_name, some("Al"));
    entity.first_name = some("Ali");
    assert!(entity.validate_first_name(true).is_ok());
    assert_eq!(entity.first_name, some("ALI"));
    entity.first_name = some("\u{e9}a");
    assert!(entity.validate_first_name(true).is_ok());
    assert_eq!(entity.first_name, some("\u{c9}A"));
}

#[test]
fn first_name_may_be_missing_where_it_is_not_required() {
    let mut entity = request();
    entity.first_name = None;
    let error = entity.validate_first_name(true).unwrap_err();
    assert_eq!(fault(&error), (ErrorKind::ErrRequiredField, "user.firstName", None));
    assert!(entity.validate_first_name(false).is_ok());
    assert_eq!(entity.first_name, None);
}

#[test]
fn last_name_must_have_two_bytes_where_there_is_one() {
    let mut entity = request();
    entity.last_name = some("L");
    let error = entity.validate_last_name().unwrap_err();
    assert_eq!(fault(&error), (ErrorKind::ErrMinSize, "user.lastName", Some(2)));
    assert_eq!(entity.last_name, some("L"));
    entity.last_name = some("Li");
    assert!(entity.validate_last_name().is_ok());
    assert_eq!(entity.last_name, some("LI"));
    entity.last_name = None;
    assert!(entity.validate_last_name().is_ok());
    assert_eq!(entity.last_name, None);
}

#[test]
fn email_must_be_there_and_well_formed() {
    let mut entity = request();
    assert!(entity.validate_email().is_ok());
    entity.email = some("nope");
    let error = entity.validate_email().unwrap_err();
    assert_eq!(fault(&error), (ErrorKind::ErrInvalidEmail, "user.email", None));
    entity.email = None;
    let error = entity.validate_email().unwrap_err();
    assert_eq!(fault(&error), (ErrorKind::ErrRequiredField, "user.email", None));
}

#[test]
fn password_must_be_strong_and_confirmed() {
    let mut entity = request();
    assert!(entity.validate_password().is_ok());
    entity.confirm_password = some("s3cret#pasS");
    let error = entity.validate_password().unwrap_err();
    assert_eq!(
        fault(&error),
        (ErrorKind::ErrConfirmPasswordDiffPassword, "user.confirmPassword", None)
    );
    entity.confirm_password = None;
    let error = entity.validate_password().unwrap_err();
    assert_eq!(fault(&error), (ErrorKind::ErrRequiredField, "user.confirmPassword", None));
    entity.password = some("weak");
    let error = entity.validate_password().unwrap_err();
    assert_eq!(fault(&error), (ErrorKind::ErrInvalidPassword, "user.password", None));
    entity.password = None;
    let error = entity.validate_password().unwrap_err();
    assert_eq!(fault(&error), (ErrorKind::ErrRequiredField, "user.password", None));
}

#[test]
fn validation_on_save_reports_every_fault_in_order() {
    let mut entity = UserRequest {
        first_name: None,
        last_name: some("L"),
        complete_name: None,
        email: some("nope"),
        password: some("weak"),
        confirm_password: None,
        fcm_token: None,
        active: None,
        created_at: None,
        updated_at: None,
    };
    let error = entity.validate_on_save().unwrap_err();
    assert_eq!(error.kind, ErrorKind::ErrInvalidRequest);
    assert_eq!(error.status, None);
    let faults: Vec<_> = error.field_errors.iter().map(fault).collect();
    assert_eq!(
        faults,
        vec![
            (ErrorKind::ErrRequiredField, "user.firstName", None),
            (ErrorKind::ErrMinSize, "user.lastName", Some(2)),
            (ErrorKind::ErrInvalidEmail, "user.email", None),
            (ErrorKind::ErrInvalidPassword, "user.password", None),
        ]
    );
}

#[test]
fn validation_on_save_reports_a_single_fault() {
    let mut entity = request();
    entity.email = None;
    let error = entity.validate_on_save().unwrap_err();
    let faults: Vec<_> = error.field_errors.iter().map(fault).collect();
    assert_eq!(faults, vec![(ErrorKind::ErrRequiredField, "user.email", None)]);
    assert_eq!(entity.first_name, some("ALICE"));
    assert_eq!(entity.last_name, some("LIDDELL"));
}

#[test]
fn validation_on_save_puts_names_in_upper_case() {
    let mut entity = request();
    assert!(entity.validate_on_save().is_ok());
    assert_eq!(entity.first_name, some("ALICE"));
    assert_eq!(entity.last_name, some("LIDDELL"));
    assert_eq!(entity.email, some("alice@example.com"));
    assert_eq!(entity.password, some("s3cret#pass"));
    assert_eq!(entity.active, Some(true));
    assert_eq!(entity.complete_name, None);
}

#[test]
fn registration_of_an_invalid_request_fails_with_its_faults() {
    let mut entity = request();
    entity.password = some("weak");
    entity.first_name = some("Al");
    let error = failure(UserService::save(SaveStep::Request(entity)));
    assert_eq!(error.kind, ErrorKind::ErrInvalidRequest);
    let faults: Vec<_> = error.field_errors.iter().map(fault).collect();
    assert_eq!(
        faults,
        vec![
            (ErrorKind::ErrMinSize, "user.firstName", Some(3)),
            (ErrorKind::ErrInvalidPassword, "user.password", None),
        ]
    );
}

#[test]
fn registration_stores_the_user_inactive_with_a_hashed_password() {
    let entity = match UserService::save(SaveStep::Request(request())) {
        SaveAction::StoreUser(entity) => entity,
        other => panic!("unexpected: {:?}", other),
    };
    assert_eq!(entity.first_name, some("ALICE"));
    assert_eq!(entity.last_name, some("LIDDELL"));
    assert_eq!(entity.complete_name, some("ALICE LIDDELL"));
    assert_eq!(entity.email, some("alice@example.com"));
    assert_eq!(entity.active, Some(false));
    assert_eq!(entity.fcm_token, some("fcm"));
    let hash = entity.password.unwrap();
    assert_ne!(hash, "s3cret#pass");
    assert!(hash.starts_with("$2b$12$"));
    assert_eq!(hash.len(), 60);
    assert!(CredentialVerifier::verify("s3cret#pass", &hash));
}

#[test]
fn preparation_of_a_checked_request() {
    let mut entity = request();
    entity.first_name = some("alice");
    entity.last_name = None;
    match UserService::prepare(entity, some("the-hash")) {
        SaveAction::StoreUser(entity) => {
            assert_eq!(entity.first_name, some("alice"));
            assert_eq!(entity.complete_name, some("ALICE"));
            assert_eq!(entity.password, some("the-hash"));
            assert_eq!(entity.confirm_password, some("s3cret#pass"));
            assert_eq!(entity.active, Some(false));
        }
        other => panic!("unexpected: {:?}", other),
    }
    let mut entity = request();
    entity.last_name = some("van Dyke");
    match UserService::prepare(entity, some("h")) {
        SaveAction::StoreUser(entity) => {
            assert_eq!(entity.complete_name, some("ALICE VAN DYKE"));
            assert_eq!(entity.last_name, some("van Dyke"));
        }
        other => panic!("unexpected: {:?}", other),
    }
    let error = failure(UserService::prepare(request(), None));
    assert_eq!(error.kind, ErrorKind::ErrPasswordHash);
    assert_eq!(error.status, None);
}

#[test]
fn registration_without_a_transaction_fails() {
    let error = failure(UserService::save(SaveStep::TransactionRefused));
    assert_eq!(error.kind, ErrorKind::ErrDbTransactionError);
}

#[test]
fn registration_creates_the_validation_token_with_the_user() {
    let token = match UserService::save(SaveStep::UserStored(Ok(user()))) {
        SaveAction::StoreToken { user, token } => {
            assert_eq!(user.id, 7);
            token
        }
        other => panic!("unexpected: {:?}", other),
    };
    assert_eq!(token.user_id, 7);
    assert_eq!(token.token_type, TokenType::UserEmailActivation);
    assert_eq!(token.token.chars().count(), 6);
    assert!(token.token.chars().all(|c| c.is_ascii_alphanumeric()));
    assert!(token.created_at.secs > 1_600_000_000);
    assert_eq!(token.expire_at.secs - token.created_at.secs, 24 * 60 * 60);
    assert_eq!(token.expire_at.nanos, token.created_at.nanos);
    let error = failure(UserService::save(SaveStep::UserStored(Err(ApiError::new(
        ErrorKind::UsrErrInserting,
    )))));
    assert_eq!(error.kind, ErrorKind::UsrErrInserting);
}

#[test]
fn validation_token_of_a_given_code_and_time() {
    let now = Timestamp { secs: NOW, nanos: 123 };
    let token = TokenService::new_email_validation_token(7, "a1B2c3".to_string(), now);
    assert_eq!(token.token, "a1B2c3");
    assert_eq!(token.user_id, 7);
    assert_eq!(token.token_type, TokenType::UserEmailActivation);
    assert_eq!(token.created_at, now);
    assert_eq!(token.expire_at, Timestamp { secs: NOW + 86_400, nanos: 123 });
    match UserService::save_with(SaveStep::UserStored(Ok(user())), None, "zzzzzz".to_string(), now) {
        SaveAction::StoreToken { token, .. } => {
            assert_eq!(token.token, "zzzzzz");
            assert_eq!(token.expire_at, Timestamp { secs: NOW + 86_400, nanos: 123 });
        }
        other => panic!("unexpected: {:?}", other),
    }
}

#[test]
fn validation_codes_are_random() {
    let first = TokenService::create_user_email_validation_token(&user());
    let mut differs = false;
    for _ in 0..20 {
        let next = TokenService::create_user_email_validation_token(&user());
        assert_eq!(next.token.len(), 6);
        assert!(next.token.bytes().all(|b| b.is_ascii_alphanumeric()));
        assert_eq!(next.user_id, 7);
        differs = differs || next.token != first.token;
    }
    assert!(differs);
}

#[test]
fn registration_announces_the_token_after_the_commit() {
    let stored = Token {
        id: 3,
        user_id: 7,
        token: "a1B2c3".to_string(),
        token_type: TokenType::UserEmailActivation,
        validated: false,
        created_at: at(NOW),
        validated_at: None,
        expire_at: Some(at(NOW + 86_400)),
    };
    let step = SaveStep::TokenStored { user: user(), stored: Ok(stored) };
    let (user, event) = match UserService::save(step) {
        SaveAction::Commit { user, event } => (user, event),
        other => panic!("unexpected: {:?}", other),
    };
    assert_eq!(event.subject, "Validate account.");
    assert_eq!(event.to, "alice@example.com");
    assert_eq!(event.name, "ALICE");
    assert_eq!(event.token, "a1B2c3");
    let step = SaveStep::Committed { user, event, committed: true };
    match UserService::save(step) {
        SaveAction::Publish { user, event } => {
            assert_eq!(user.id, 7);
            assert_eq!(event.token, "a1B2c3");
        }
        other => panic!("unexpected: {:?}", other),
    }
}

#[test]
fn registration_fails_where_the_store_fails() {
    let step = SaveStep::TokenStored {
        user: user(),
        stored: Err(ApiError::new(ErrorKind::TknErrInserting)),
    };
    assert_eq!(failure(UserService::save(step)).kind, ErrorKind::TknErrInserting);
    let event = UserService::validation_mail(
        &user(),
        Token {
            id: 1,
            user_id: 7,
            token: "c".to_string(),
            token_type: TokenType::UserEmailActivation,
            validated: false,
            created_at: at(NOW),
            validated_at: None,
            expire_at: None,
        },
    );
    let step = SaveStep::Committed { user: user(), event, committed: false };
    let error = failure(UserService::save(step));
    assert_eq!(error.kind, ErrorKind::UsrErrInserting);
    assert_eq!(error.status, None);
}

#[test]
fn registration_with_a_given_hash() {
    let now = Timestamp { secs: NOW, nanos: 0 };
    let step = SaveStep::Request(request());
    match UserService::save_with(step, some("the-hash"), String::new(), now) {
        SaveAction::StoreUser(entity) => {
            assert_eq!(entity.first_name, some("ALICE"));
            assert_eq!(entity.complete_name, some("ALICE LIDDELL"));
            assert_eq!(entity.password, some("the-hash"));
            assert_eq!(entity.active, Some(false));
        }
        other => panic!("unexpected: {:?}", other),
    }
    let step = SaveStep::Request(request());
    let error = failure(UserService::save_with(step, None, String::new(), now));
    assert_eq!(error.kind, ErrorKind::ErrPasswordHash);
    let mut entity = request();
    entity.email = None;
    let step = SaveStep::Request(entity);
    let error = failure(UserService::save_with(step, some("the-hash"), String::new(), now));
    assert_eq!(error.kind, ErrorKind::ErrInvalidRequest);
    assert_eq!(error.field_errors.len(), 1);
}

/// A store with one open transaction: rows are kept only by a commit.
struct Store {
    users: Vec<String>,
    tokens: Vec<String>,
    pending_users: Vec<String>,
    pending_tokens: Vec<String>,
    token_insert_fails: bool,
    commit_fails: bool,
}

fn register(store: &mut Store, entity: UserRequest) -> Result<User, ApiError> {
    let mut action = UserService::save(SaveStep::Request(entity));
    loop {
        let step = match action {
            SaveAction::StoreUser(entity) => {
                let mut stored = user();
                stored.email = entity.email.clone().unwrap();
                stored.first_name = entity.first_name.clone().unwrap();
                store.pending_users.push(stored.email.clone());
                SaveStep::UserStored(Ok(stored))
            }
            SaveAction::StoreToken { user, token } => {
                let stored = if store.token_insert_fails {
                    Err(ApiError::new(ErrorKind::TknErrInserting))
                } else {
                    store.pending_tokens.push(token.token.clone());
                    Ok(Token {
                        id: 1,
                        user_id: token.user_id,
                        token: token.token,
                        token_type: token.token_type,
                        validated: false,
                        created_at: token.created_at,
                        validated_at: None,
                        expire_at: Some(token.expire_at),
                    })
                };
                SaveStep::TokenStored { user, stored }
            }
            SaveAction::Commit { user, event } => {
                let committed = !store.commit_fails;
                if committed {
                    store.users.append(&mut store.pending_users);
                    store.tokens.append(&mut store.pending_tokens);
                }
                SaveStep::Committed { user, event, committed }
            }
            SaveAction::Publish { user, event } => {
                assert_eq!(event.to, user.email);
                assert_eq!(store.tokens, vec![event.token]);
                return Ok(user);
            }
            SaveAction::Fail(error) => {
                store.pending_users.clear();
                store.pending_tokens.clear();
                return Err(error);
            }
        };
        action = UserService::save(step);
    }
}

fn store(token_insert_fails: bool, commit_fails: bool) -> Store {
    Store {
        users: Vec::new(),
        tokens: Vec::new(),
        pending_users: Vec::new(),
        pending_tokens: Vec::new(),
        token_insert_fails,
        commit_fails,
    }
}

#[test]
fn registration_keeps_user_and_token_together() {
    let mut kept = store(false, false);
    let user = register(&mut kept, request()).unwrap();
    assert_eq!(user.email, "alice@example.com");
    assert_eq!(kept.users, vec!["alice@example.com".to_string()]);
    assert_eq!(kept.tokens.len(), 1);
    assert_eq!(kept.tokens[0].len(), 6);
}

#[test]
fn registration_that_breaks_midway_keeps_neither_user_nor_token() {
    let mut broken = store(true, false);
    let error = register(&mut broken, request()).unwrap_err();
    assert_eq!(error.kind, ErrorKind::TknErrInserting);
    assert!(broken.users.is_empty() && broken.tokens.is_empty());
    let mut broken = store(false, true);
    let error = register(&mut broken, request()).unwrap_err();
    assert_eq!(error.kind, ErrorKind::UsrErrInserting);
    assert!(broken.users.is_empty() && broken.tokens.is_empty());
}
