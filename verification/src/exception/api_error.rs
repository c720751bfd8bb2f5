use vstd::prelude::*;

use super::api_error_code::{ApiErrorCode, ErrorKind};

verus! {

/// Status for a failed authentication.
pub const UNAUTHORIZED: u16 = 401;

/// Status for a missing entity.
pub const NOT_FOUND: u16 = 404;

/// What is wrong with one field of a request.
#[derive(Debug)]
pub struct ApiFieldError {
    pub kind: ErrorKind,
    pub field: String,
    pub min_size: Option<usize>,
}

impl ApiFieldError {
    /// Holds when this error reports `kind` on the field named `field`, with
    /// the minimum length `min_size` where one applies.
    pub open spec fn is(&self, kind: ErrorKind, field: Seq<char>, min_size: Option<usize>) -> bool {
        &&& self.kind == kind
        &&& self.field@ == field
        &&& self.min_size == min_size
    }

    pub fn new(kind: ErrorKind, field: String) -> (e: ApiFieldError)
        ensures
            e.is(kind, field@, None),
    {
        ApiFieldError { kind, field, min_size: None }
    }

    pub fn new_with_min_size(kind: ErrorKind, field: String, min_size: usize) -> (e: ApiFieldError)
        ensures
            e.is(kind, field@, Some(min_size)),
    {
        ApiFieldError { kind, field, min_size: Some(min_size) }
    }

    /// The code and message reported for the field.
    pub fn code(&self) -> (c: ApiErrorCode)
        ensures
            c == self.kind.spec_code(),
    {
        self.kind.code()
    }
}

/// A failure handed back to the caller: what went wrong, the response status
/// where one is fixed, and the field errors of an invalid request.
#[derive(Debug)]
pub struct ApiError {
    pub status: Option<u16>,
    pub kind: ErrorKind,
    pub field_errors: Vec<ApiFieldError>,
}

impl ApiError {
    /// Holds when this error is of `kind` with the given status and carries
    /// no field errors.
    pub open spec fn is(&self, status: Option<u16>, kind: ErrorKind) -> bool {
        &&& self.status == status
        &&& self.kind == kind
        &&& self.field_errors@.len() == 0
    }

    /// Holds when this error is of `kind` with no fixed status.
    pub open spec fn is_plain(&self, kind: ErrorKind) -> bool {
        self.is(None, kind)
    }

    pub fn new(kind: ErrorKind) -> (e: ApiError)
        ensures
            e.is_plain(kind),
    {
        ApiError { status: None, kind, field_errors: Vec::new() }
    }

    pub fn new_with_status(status: u16, kind: ErrorKind) -> (e: ApiError)
        ensures
            e.is(Some(status), kind),
    {
        ApiError { status: Some(status), kind, field_errors: Vec::new() }
    }

    pub fn new_with_field_errors(kind: ErrorKind, field_errors: Vec<ApiFieldError>) -> (e: ApiError)
        ensures
            e.status == None::<u16>,
            e.kind == kind,
            e.field_errors == field_errors,
    {
        ApiError { status: None, kind, field_errors }
    }

    /// The code and message reported to the caller.
    pub fn code(&self) -> (c: ApiErrorCode)
        ensures
            c == self.kind.spec_code(),
    {
        self.kind.code()
    }
}

} // verus!
