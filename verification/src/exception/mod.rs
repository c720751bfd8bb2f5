//! Error values surfaced to callers: stable codes and the errors carrying them.

pub mod api_error;
pub mod api_error_code;

pub use api_error::{ApiError, ApiFieldError, NOT_FOUND, UNAUTHORIZED};
pub use api_error_code::{ApiErrorCode, ErrorKind};
