use vstd::prelude::*;

use super::timestamp::Timestamp;
use crate::exception::{ApiError, ApiFieldError, ErrorKind};
use crate::util::text::{byte_len, text_view, to_upper_case, upper_case};
use crate::util::validators::{
    accepted, validate_email, validate_password, EMAIL_PATTERN, PASSWORD_PATTERN,
};

verus! {

/// What a caller sends to register or change a user.
#[derive(Debug)]
pub struct UserRequest {
    pub first_name: Option<String>,
    pub last_name: Option<String>,
    pub complete_name: Option<String>,
    pub email: Option<String>,
    pub password: Option<String>,
    pub confirm_password: Option<String>,
    pub fcm_token: Option<String>,
    pub active: Option<bool>,
    pub created_at: Option<Timestamp>,
    pub updated_at: Option<Timestamp>,
}

/// A stored user. `password` holds the hash of the password, never the
/// password itself.
#[derive(Debug)]
pub struct User {
    pub id: i64,
    pub first_name: String,
    pub last_name: Option<String>,
    pub complete_name: Option<String>,
    pub email: String,
    pub password: String,
    pub active: bool,
    pub deleted: Option<bool>,
    pub fcm_token: Option<String>,
    pub created_at: Timestamp,
    pub updated_at: Timestamp,
    pub deleted_at: Option<Timestamp>,
}

/// The shortest first name, in bytes.
pub const MIN_FIRST_NAME: usize = 3;

/// The shortest last name, in bytes.
pub const MIN_LAST_NAME: usize = 2;

/// What a field check found wrong: the kind of the error, the name of the
/// field and the minimum length where one applies.
pub ghost struct FieldFault {
    pub kind: ErrorKind,
    pub field: Seq<char>,
    pub min_size: Option<usize>,
}

impl UserRequest {
    /// What is wrong with the first name, if anything.
    pub open spec fn first_name_fault(first_name: Option<String>, required: bool) -> Option<
        FieldFault,
    > {
        match first_name {
            Some(name) => if byte_len(name@) < MIN_FIRST_NAME {
                Some(
                    FieldFault {
                        kind: ErrorKind::ErrMinSize,
                        field: "user.firstName"@,
                        min_size: Some(MIN_FIRST_NAME),
                    },
                )
            } else {
                None
            },
            None => if required {
                Some(
                    FieldFault {
                        kind: ErrorKind::ErrRequiredField,
                        field: "user.firstName"@,
                        min_size: None,
                    },
                )
            } else {
                None
            },
        }
    }

    /// What is wrong with the last name, if anything.
    pub open spec fn last_name_fault(last_name: Option<String>) -> Option<FieldFault> {
        match last_name {
            Some(name) => if byte_len(name@) < MIN_LAST_NAME {
                Some(
                    FieldFault {
                        kind: ErrorKind::ErrMinSize,
                        field: "user.lastName"@,
                        min_size: Some(MIN_LAST_NAME),
                    },
                )
            } else {
                None
            },
            None => None,
        }
    }

    /// What is wrong with the email address, if anything.
    pub open spec fn email_fault(email: Option<String>) -> Option<FieldFault> {
        match email {
            Some(email) => if accepted(EMAIL_PATTERN@, email@) {
                None
            } else {
                Some(
                    FieldFault {
                        kind: ErrorKind::ErrInvalidEmail,
                        field: "user.email"@,
                        min_size: None,
                    },
                )
            },
            None => Some(
                FieldFault {
                    kind: ErrorKind::ErrRequiredField,
                    field: "user.email"@,
                    min_size: None,
                },
            ),
        }
    }

    /// What is wrong with the password and its confirmation, if anything.
    pub open spec fn password_fault(
        password: Option<String>,
        confirm_password: Option<String>,
    ) -> Option<FieldFault> {
        match password {
            Some(password) => if !accepted(PASSWORD_PATTERN@, password@) {
                Some(
                    FieldFault {
                        kind: ErrorKind::ErrInvalidPassword,
                        field: "user.password"@,
                        min_size: None,
                    },
                )
            } else {
                match confirm_password {
                    Some(confirm) => if confirm@ != password@ {
                        Some(
                            FieldFault {
                                kind: ErrorKind::ErrConfirmPasswordDiffPassword,
                                field: "user.confirmPassword"@,
                                min_size: None,
                            },
                        )
                    } else {
                        None
                    },
                    None => Some(
                        FieldFault {
                            kind: ErrorKind::ErrRequiredField,
                            field: "user.confirmPassword"@,
                            min_size: None,
                        },
                    ),
                }
            },
            None => Some(
                FieldFault {
                    kind: ErrorKind::ErrRequiredField,
                    field: "user.password"@,
                    min_size: None,
                },
            ),
        }
    }

    /// The faults of a request that is to be saved, in the order of the
    /// checks: first name, last name, email, password.
    pub open spec fn faults(&self) -> Seq<FieldFault> {
        Self::listed(Self::first_name_fault(self.first_name, true))
            + Self::listed(Self::last_name_fault(self.last_name))
            + Self::listed(Self::email_fault(self.email))
            + Self::listed(Self::password_fault(self.password, self.confirm_password))
    }

    /// A fault as a list of one, no fault as the empty list.
    pub open spec fn listed(fault: Option<FieldFault>) -> Seq<FieldFault> {
        match fault {
            Some(fault) => seq![fault],
            None => Seq::empty(),
        }
    }

    /// Holds when `result` reports `fault`.
    pub open spec fn reported(result: Result<(), ApiFieldError>, fault: Option<FieldFault>) -> bool {
        match fault {
            Some(fault) => result matches Err(e) && e.is(fault.kind, fault.field, fault.min_size),
            None => result is Ok,
        }
    }

    /// Holds when `errors` reports `faults`, one for one.
    pub open spec fn all_reported(errors: Seq<ApiFieldError>, faults: Seq<FieldFault>) -> bool {
        &&& errors.len() == faults.len()
        &&& forall|i: int|
            0 <= i < errors.len() ==> (#[trigger] errors[i]).is(
                faults[i].kind,
                faults[i].field,
                faults[i].min_size,
            )
    }

    /// A name in upper case, where there is one.
    pub open spec fn upper_cased(name: Option<String>) -> Option<Seq<char>> {
        match name {
            Some(name) => Some(upper_case(name@)),
            None => None,
        }
    }

    /// Checks the first name and, where it is long enough, puts it in
    /// upper case.
    pub fn validate_first_name(&mut self, required: bool) -> (result: Result<(), ApiFieldError>)
        ensures
            Self::reported(result, Self::first_name_fault(old(self).first_name, required)),
            text_view(final(self).first_name) == if result is Ok {
                Self::upper_cased(old(self).first_name)
            } else {
                text_view(old(self).first_name)
            },
            final(self).last_name == old(self).last_name,
            final(self).complete_name == old(self).complete_name,
            final(self).email == old(self).email,
            final(self).password == old(self).password,
            final(self).confirm_password == old(self).confirm_password,
            final(self).fcm_token == old(self).fcm_token,
            final(self).active == old(self).active,
            final(self).created_at == old(self).created_at,
            final(self).updated_at == old(self).updated_at,
    {
        match &self.first_name {
            Some(first_name) => {
                if first_name.as_str().len() < MIN_FIRST_NAME {
                    Err(
                        ApiFieldError::new_with_min_size(
                            ErrorKind::ErrMinSize,
                            "user.firstName".to_owned(),
                            MIN_FIRST_NAME,
                        ),
                    )
                } else {
                    let upper = to_upper_case(first_name.as_str());
                    self.first_name = Some(upper);
                    Ok(())
                }
            },
            None => {
                if required {
                    Err(ApiFieldError::new(ErrorKind::ErrRequiredField, "user.firstName".to_owned()))
                } else {
                    Ok(())
                }
            },
        }
    }

    /// Checks the last name and, where it is long enough, puts it in upper
    /// case.
    pub fn validate_last_name(&mut self) -> (result: Result<(), ApiFieldError>)
        ensures
            Self::reported(result, Self::last_name_fault(old(self).last_name)),
            text_view(final(self).last_name) == if result is Ok {
                Self::upper_cased(old(self).last_name)
            } else {
                text_view(old(self).last_name)
            },
            final(self).first_name == old(self).first_name,
            final(self).complete_name == old(self).complete_name,
            final(self).email == old(self).email,
            final(self).password == old(self).password,
            final(self).confirm_password == old(self).confirm_password,
            final(self).fcm_token == old(self).fcm_token,
            final(self).active == old(self).active,
            final(self).created_at == old(self).created_at,
            final(self).updated_at == old(self).updated_at,
    {
        match &self.last_name {
            Some(last_name) => {
                if last_name.as_str().len() < MIN_LAST_NAME {
                    Err(
                        ApiFieldError::new_with_min_size(
                            ErrorKind::ErrMinSize,
                            "user.lastName".to_owned(),
                            MIN_LAST_NAME,
                        ),
                    )
                } else {
                    let upper = to_upper_case(last_name.as_str());
                    self.last_name = Some(upper);
                    Ok(())
                }
            },
            None => Ok(()),
        }
    }

    /// Checks the email address.
    pub fn validate_email(&self) -> (result: Result<(), ApiFieldError>)
        ensures
            Self::reported(result, Self::email_fault(self.email)),
    {
        match &self.email {
            Some(email) => {
                if !validate_email(email.as_str()) {
                    Err(ApiFieldError::new(ErrorKind::ErrInvalidEmail, "user.email".to_owned()))
                } else {
                    Ok(())
                }
            },
            None => Err(ApiFieldError::new(ErrorKind::ErrRequiredField, "user.email".to_owned())),
        }
    }

    /// Checks the password and that its confirmation repeats it.
    pub fn validate_password(&self) -> (result: Result<(), ApiFieldError>)
        ensures
            Self::reported(result, Self::password_fault(self.password, self.confirm_password)),
    {
        match &self.password {
            Some(password) => {
                if !validate_password(password.as_str()) {
                    Err(
                        ApiFieldError::new(
                            ErrorKind::ErrInvalidPassword,
                            "user.password".to_owned(),
                        ),
                    )
                } else {
                    match &self.confirm_password {
                        Some(confirm_password) => {
                            if *confirm_password != *password {
                                Err(
                                    ApiFieldError::new(
                                        ErrorKind::ErrConfirmPasswordDiffPassword,
                                        "user.confirmPassword".to_owned(),
                                    ),
                                )
                            } else {
                                Ok(())
                            }
                        },
                        None => Err(
                            ApiFieldError::new(
                                ErrorKind::ErrRequiredField,
                                "user.confirmPassword".to_owned(),
                            ),
                        ),
                    }
                }
            },
            None => Err(
                ApiFieldError::new(ErrorKind::ErrRequiredField, "user.password".to_owned()),
            ),
        }
    }

    /// Checks a request that is to be saved. Every field is checked, and
    /// every fault is reported, in the order of the checks. Names that
    /// pass are put in upper case.
    pub fn validate_on_save(&mut self) -> (result: Result<(), ApiError>)
        ensures
            match result {
                Ok(_) => old(self).faults().len() == 0,
                Err(e) => {
                    &&& old(self).faults().len() > 0
                    &&& e.status == None::<u16>
                    &&& e.kind == ErrorKind::ErrInvalidRequest
                    &&& Self::all_reported(e.field_errors@, old(self).faults())
                },
            },
            text_view(final(self).first_name) == if Self::first_name_fault(
                old(self).first_name,
                true,
            ) is None {
                Self::upper_cased(old(self).first_name)
            } else {
                text_view(old(self).first_name)
            },
            text_view(final(self).last_name) == if Self::last_name_fault(old(self).last_name)
                is None {
                Self::upper_cased(old(self).last_name)
            } else {
                text_view(old(self).last_name)
            },
            final(self).complete_name == old(self).complete_name,
            final(self).email == old(self).email,
            final(self).password == old(self).password,
            final(self).confirm_password == old(self).confirm_password,
            final(self).fcm_token == old(self).fcm_token,
            final(self).active == old(self).active,
            final(self).created_at == old(self).created_at,
            final(self).updated_at == old(self).updated_at,
    {
        let mut field_errors: Vec<ApiFieldError> = Vec::new();
        if let Err(error) = self.validate_first_name(true) {
            field_errors.push(error);
        }
        if let Err(error) = self.validate_last_name() {
            field_errors.push(error);
        }
        if let Err(error) = self.validate_email() {
            field_errors.push(error);
        }
        if let Err(error) = self.validate_password() {
            field_errors.push(error);
        }
        if field_errors.len() > 0 {
            return Err(ApiError::new_with_field_errors(ErrorKind::ErrInvalidRequest, field_errors));
        }
        Ok(())
    }
}

} // verus!
