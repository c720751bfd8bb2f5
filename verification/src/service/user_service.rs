use vstd::prelude::*;
use vstd::string::StringExecFns;

use crate::exception::{ApiError, ErrorKind, NOT_FOUND};
use crate::model::timestamp::SECONDS_PER_DAY;
use crate::model::{InsertToken, MailEvent, Timestamp, Token, TokenType, User, UserRequest};
use crate::service::token_service::{TokenService, CODE_LENGTH};
use crate::util::clock::current_time;
use crate::util::password::{hash_password, password_matches};
use crate::util::random::{is_code, random_code};
use crate::util::text::{text_view, to_upper_case, upper_case};

verus! {

/// The subject of the validation mail.
pub const VALIDATION_MAIL_SUBJECT: &'static str = "Validate account.";

/// Where a registration stands and what has just come in.
#[derive(Debug)]
#[allow(inconsistent_fields)]
pub enum SaveStep {
    /// The request has arrived.
    Request(UserRequest),
    /// The store did not open a transaction.
    TransactionRefused,
    /// The store has answered the insertion of the user.
    UserStored(Result<User, ApiError>),
    /// The store has answered the insertion of the validation token.
    TokenStored { user: User, stored: Result<Token, ApiError> },
    /// The store has answered the commit.
    Committed { user: User, event: MailEvent, committed: bool },
}

/// What a registration needs done next, or how it ends.
#[derive(Debug)]
#[allow(inconsistent_fields)]
pub enum SaveAction {
    /// Open a transaction and insert the user in it, then come back with
    /// [`SaveStep::UserStored`], or with [`SaveStep::TransactionRefused`].
    StoreUser(UserRequest),
    /// Insert the validation token in the same transaction, then come
    /// back with [`SaveStep::TokenStored`].
    StoreToken { user: User, token: InsertToken },
    /// Commit the transaction, then come back with
    /// [`SaveStep::Committed`].
    Commit { user: User, event: MailEvent },
    /// The user is registered. Publish the event; whether that succeeds
    /// does not change the outcome.
    Publish { user: User, event: MailEvent },
    /// The registration failed. Nothing of it is to stay in the store.
    Fail(ApiError),
}

/// Registration and the lookups of users.
pub struct UserService;

impl UserService {
    /// Holds when `e` reports that no such user exists.
    pub open spec fn not_found(e: ApiError) -> bool {
        e.is(Some(NOT_FOUND), ErrorKind::UsrErrNotFound)
    }

    /// Holds when `result` is the user that a lookup found, or the report
    /// that there is none.
    pub open spec fn looked_up(found: Option<User>, result: Result<User, ApiError>) -> bool {
        match found {
            Some(user) => result == Ok::<User, ApiError>(user),
            None => result matches Err(e) && Self::not_found(e),
        }
    }

    /// Holds when `action` fails with `kind` and no fixed status.
    pub open spec fn save_fails(action: SaveAction, kind: ErrorKind) -> bool {
        action matches SaveAction::Fail(e) && e.is_plain(kind)
    }

    /// The complete name: the first name in upper case, then, where there
    /// is a last name, a space and the last name in upper case.
    pub open spec fn complete_name(first_name: Seq<char>, last_name: Option<String>) -> Seq<char> {
        match last_name {
            Some(last_name) => upper_case(first_name) + " "@ + upper_case(last_name@),
            None => upper_case(first_name),
        }
    }

    /// Holds when `action` is what preparing the checked request `entity`
    /// with the password hash `hashed` gives: without a hash the
    /// registration fails; with one the user is to be stored inactive,
    /// under the complete name and with the hash in place of the password.
    pub open spec fn prepared(entity: UserRequest, hashed: Option<String>, action: SaveAction) -> bool {
        match hashed {
            None => Self::save_fails(action, ErrorKind::ErrPasswordHash),
            Some(hash) => {
                &&& action matches SaveAction::StoreUser(user)
                &&& user.first_name == entity.first_name
                &&& user.last_name == entity.last_name
                &&& text_view(user.complete_name) == Some(
                    Self::complete_name(entity.first_name->0@, entity.last_name),
                )
                &&& user.email == entity.email
                &&& user.password == Some(hash)
                &&& user.confirm_password == entity.confirm_password
                &&& user.fcm_token == entity.fcm_token
                &&& user.active == Some(false)
                &&& user.created_at == entity.created_at
                &&& user.updated_at == entity.updated_at
            },
        }
    }

    /// Holds when `event` asks for the validation mail of `user` with the
    /// code of `token`.
    pub open spec fn announces(event: MailEvent, user: User, token: Token) -> bool {
        &&& event.subject@ == VALIDATION_MAIL_SUBJECT@
        &&& event.to@ == user.email@
        &&& event.name@ == user.first_name@
        &&& event.token == token.token
    }

    /// What a registration does at a step after the request: with `code`
    /// for a new validation token and `now` for its creation.
    pub open spec fn advanced(step: SaveStep, code: Seq<char>, now: Timestamp, action: SaveAction) -> bool {
        match step {
            SaveStep::Request(_) => false,
            SaveStep::TransactionRefused => Self::save_fails(
                action,
                ErrorKind::ErrDbTransactionError,
            ),
            SaveStep::UserStored(stored) => match stored {
                Err(e) => action == SaveAction::Fail(e),
                Ok(user) => {
                    &&& action matches SaveAction::StoreToken { user: u, token }
                    &&& u == user
                    &&& token.user_id == user.id
                    &&& token.token@ == code
                    &&& token.token_type == TokenType::UserEmailActivation
                    &&& token.created_at == now
                    &&& token.expire_at.secs == now.secs + SECONDS_PER_DAY
                    &&& token.expire_at.nanos == now.nanos
                },
            },
            SaveStep::TokenStored { user, stored } => match stored {
                Err(e) => action == SaveAction::Fail(e),
                Ok(token) => {
                    &&& action matches SaveAction::Commit { user: u, event }
                    &&& u == user
                    &&& Self::announces(event, user, token)
                },
            },
            SaveStep::Committed { user, event, committed } => if committed {
                action == (SaveAction::Publish { user, event })
            } else {
                Self::save_fails(action, ErrorKind::UsrErrInserting)
            },
        }
    }

    /// What a registration does with the request `request`, where the
    /// hash engine gave `hashed` for its password: a request with faults
    /// fails with all of them; any other is prepared with its names in
    /// upper case.
    pub open spec fn requested(request: UserRequest, hashed: Option<String>, action: SaveAction) -> bool {
        if request.faults().len() > 0 {
            &&& action matches SaveAction::Fail(e)
            &&& e.status == None::<u16>
            &&& e.kind == ErrorKind::ErrInvalidRequest
            &&& UserRequest::all_reported(e.field_errors@, request.faults())
        } else {
            let first_name = upper_case(request.first_name->0@);
            match hashed {
                None => Self::save_fails(action, ErrorKind::ErrPasswordHash),
                Some(hash) => {
                    &&& action matches SaveAction::StoreUser(user)
                    &&& text_view(user.first_name) == Some(first_name)
                    &&& text_view(user.last_name) == UserRequest::upper_cased(
                        request.last_name,
                    )
                    &&& text_view(user.complete_name) == Some(
                        Self::complete_name(first_name, user.last_name),
                    )
                    &&& user.email == request.email
                    &&& user.password == Some(hash)
                    &&& user.confirm_password == request.confirm_password
                    &&& user.fcm_token == request.fcm_token
                    &&& user.active == Some(false)
                    &&& user.created_at == request.created_at
                    &&& user.updated_at == request.updated_at
                },
            }
        }
    }

    /// What a registration does at `step`, given what the hash engine, the
    /// random source and the clock hand in.
    pub open spec fn save_decided(
        step: SaveStep,
        hashed: Option<String>,
        code: Seq<char>,
        now: Timestamp,
        action: SaveAction,
    ) -> bool {
        match step {
            SaveStep::Request(request) => Self::requested(request, hashed, action),
            _ => Self::advanced(step, code, now, action),
        }
    }

    /// Holds when `hashed` is a possible answer of the hash engine for
    /// the password of `step`: where there is a hash, the password
    /// belongs to it.
    pub open spec fn hash_of_password(step: SaveStep, hashed: Option<String>) -> bool {
        match (step, hashed) {
            (SaveStep::Request(request), Some(hash)) => match request.password {
                Some(password) => password_matches(password@, hash@) == Some(true),
                None => true,
            },
            _ => true,
        }
    }

    /// The user that a lookup by id found, or the failure to report where
    /// it found none.
    pub fn find_by_id(found: Option<User>) -> (result: Result<User, ApiError>)
        ensures
            Self::looked_up(found, result),
    {
        match found {
            Some(user) => Ok(user),
            None => Err(ApiError::new_with_status(NOT_FOUND, ErrorKind::UsrErrNotFound)),
        }
    }

    /// The user that a lookup by email found, or the failure to report
    /// where it found none.
    pub fn find_by_email(found: Option<User>) -> (result: Result<User, ApiError>)
        ensures
            Self::looked_up(found, result),
    {
        match found {
            Some(user) => Ok(user),
            None => Err(ApiError::new_with_status(NOT_FOUND, ErrorKind::UsrErrNotFound)),
        }
    }

    /// Prepares a checked request for the store, with `hashed` as the
    /// answer of the hash engine for its password.
    pub fn prepare(entity: UserRequest, hashed: Option<String>) -> (action: SaveAction)
        requires
            entity.first_name is Some,
        ensures
            Self::prepared(entity, hashed, action),
    {
        let hash = match hashed {
            Some(hash) => hash,
            None => {
                return SaveAction::Fail(ApiError::new(ErrorKind::ErrPasswordHash));
            },
        };
        let mut entity = entity;
        let mut complete_name = match &entity.first_name {
            Some(first_name) => to_upper_case(first_name.as_str()),
            None => String::new(),
        };
        if let Some(last_name) = &entity.last_name {
            complete_name.append(" ");
            let upper = to_upper_case(last_name.as_str());
            complete_name.append(upper.as_str());
        }
        entity.password = Some(hash);
        entity.complete_name = Some(complete_name);
        entity.active = Some(false);
        SaveAction::StoreUser(entity)
    }

    /// The mail event that announces the validation token `token` to
    /// `user`.
    pub fn validation_mail(user: &User, token: Token) -> (event: MailEvent)
        ensures
            Self::announces(event, *user, token),
    {
        MailEvent {
            subject: String::from_str(VALIDATION_MAIL_SUBJECT),
            to: user.email.clone(),
            name: user.first_name.clone(),
            token: token.token,
        }
    }

    fn advance(step: SaveStep, code: String, now: Timestamp) -> (action: SaveAction)
        requires
            !(step is Request),
            now.secs + SECONDS_PER_DAY <= i64::MAX,
        ensures
            Self::advanced(step, code@, now, action),
    {
        match step {
            SaveStep::Request(_) => SaveAction::Fail(ApiError::new(ErrorKind::ErrInvalidRequest)),
            SaveStep::TransactionRefused => SaveAction::Fail(
                ApiError::new(ErrorKind::ErrDbTransactionError),
            ),
            SaveStep::UserStored(stored) => match stored {
                Err(e) => SaveAction::Fail(e),
                Ok(user) => {
                    let token = TokenService::new_email_validation_token(user.id, code, now);
                    SaveAction::StoreToken { user, token }
                },
            },
            SaveStep::TokenStored { user, stored } => match stored {
                Err(e) => SaveAction::Fail(e),
                Ok(token) => {
                    let event = Self::validation_mail(&user, token);
                    SaveAction::Commit { user, event }
                },
            },
            SaveStep::Committed { user, event, committed } => {
                if committed {
                    SaveAction::Publish { user, event }
                } else {
                    SaveAction::Fail(ApiError::new(ErrorKind::UsrErrInserting))
                }
            },
        }
    }

    /// One step of a registration, given what the hash engine, the random
    /// source and the clock hand in: `hashed` for the password of a
    /// request that passes its checks, `code` for a new validation token
    /// and `now` for its creation.
    pub fn save_with(step: SaveStep, hashed: Option<String>, code: String, now: Timestamp) -> (action:
        SaveAction)
        requires
            now.secs + SECONDS_PER_DAY <= i64::MAX,
        ensures
            Self::save_decided(step, hashed, code@, now, action),
    {
        match step {
            SaveStep::Request(request) => {
                let mut entity = request;
                match entity.validate_on_save() {
                    Err(e) => SaveAction::Fail(e),
                    Ok(_) => Self::prepare(entity, hashed),
                }
            },
            _ => Self::advance(step, code, now),
        }
    }

    /// One step of a registration: from where the flow stands to what is
    /// done next. The password is hashed only once the request has passed
    /// its checks; a new validation token gets a fresh random code of six
    /// digits and letters and the present moment as its creation.
    pub fn save(step: SaveStep) -> (action: SaveAction)
        ensures
            exists|hashed: Option<String>, code: Seq<char>, now: Timestamp|
                Self::hash_of_password(step, hashed) && is_code(code, CODE_LENGTH as nat)
                    && now.wf() && #[trigger] Self::save_decided(step, hashed, code, now, action),
    {
        match step {
            SaveStep::Request(request) => {
                let mut entity = request;
                match entity.validate_on_save() {
                    Err(e) => {
                        let action = SaveAction::Fail(e);
                        proof {
                            let code = Seq::new(CODE_LENGTH as nat, |i: int| '0');
                            let now = Timestamp { secs: 0, nanos: 0 };
                            assert(Self::save_decided(step, None, code, now, action));
                        }
                        action
                    },
                    Ok(_) => {
                        let hashed = match &entity.password {
                            Some(password) => hash_password(password.as_str()),
                            None => None,
                        };
                        let action = Self::prepare(entity, hashed);
                        proof {
                            let code = Seq::new(CODE_LENGTH as nat, |i: int| '0');
                            let now = Timestamp { secs: 0, nanos: 0 };
                            assert(Self::save_decided(step, hashed, code, now, action));
                        }
                        action
                    },
                }
            },
            _ => {
                let code = random_code(CODE_LENGTH);
                let now = current_time();
                let action = Self::advance(step, code, now);
                proof {
                    assert(Self::save_decided(step, None, code@, now, action));
                }
                action
            },
        }
    }
}

} // verus!
