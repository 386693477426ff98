//! The errors that handlers answer with: each has an HTTP status and a message.
use vstd::prelude::*;
use crate::directory::DirectoryError;

verus! {

/// An error answer: the HTTP status `code`, and the body
/// `{"status": status, "message": message}` with `status` always `"fail"`.
pub struct ErrorResponse {
    pub code: u16,
    pub status: String,
    pub message: String,
}

/// Errors of the login handlers.
pub enum LoginError {
    InternalError,
    BadClientData,
    Timeout,
    ValidationError { field: String },
}

/// Errors of the user handlers.
pub enum UserError {
    InternalError,
    BadClientData,
    Timeout,
    ValidationError { field: String },
}

pub open spec fn validation_message(field: Seq<char>) -> Seq<char> {
    "Validation error on field: "@ + field
}

fn validation_text(field: &String) -> (r: String)
    ensures
        r@ == validation_message(field@),
{
    "Validation error on field: ".to_owned().concat(field.as_str())
}

impl LoginError {
    pub open spec fn status_spec(&self) -> u16 {
        match self {
            LoginError::InternalError => 500,
            LoginError::BadClientData => 400,
            LoginError::Timeout => 504,
            LoginError::ValidationError { .. } => 400,
        }
    }

    pub open spec fn message_spec(&self) -> Seq<char> {
        match self {
            LoginError::InternalError => "internal error"@,
            LoginError::BadClientData => "bad request"@,
            LoginError::Timeout => "timeout"@,
            LoginError::ValidationError { field } => validation_message(field@),
        }
    }

    pub fn status_code(&self) -> (r: u16)
        ensures
            r == self.status_spec(),
    {
        match self {
            LoginError::InternalError => 500,
            LoginError::BadClientData => 400,
            LoginError::Timeout => 504,
            LoginError::ValidationError { .. } => 400,
        }
    }

    /// The text shown to the caller.
    pub fn message(&self) -> (r: String)
        ensures
            r@ == self.message_spec(),
    {
        match self {
            LoginError::InternalError => "internal error".to_owned(),
            LoginError::BadClientData => "bad request".to_owned(),
            LoginError::Timeout => "timeout".to_owned(),
            LoginError::ValidationError { field } => validation_text(field),
        }
    }

    pub fn error_response(&self) -> (r: ErrorResponse)
        ensures
            r.code == self.status_spec(),
            r.status@ == "fail"@,
            r.message@ == self.message_spec(),
    {
        ErrorResponse { code: self.status_code(), status: "fail".to_owned(), message: self.message() }
    }

    /// How a failed directory step of a login is answered: a write the store
    /// refused is internal, an update that touched nothing is the caller's.
    pub open spec fn from_directory_spec(e: DirectoryError) -> LoginError {
        match e {
            DirectoryError::StoreFailed => LoginError::InternalError,
            DirectoryError::DuplicateEmail => LoginError::InternalError,
            DirectoryError::UpdateFailed => LoginError::BadClientData,
            DirectoryError::NotFound => LoginError::BadClientData,
        }
    }

    pub fn from_directory(e: DirectoryError) -> (r: LoginError)
        ensures
            r == Self::from_directory_spec(e),
    {
        match e {
            DirectoryError::StoreFailed => LoginError::InternalError,
            DirectoryError::DuplicateEmail => LoginError::InternalError,
            DirectoryError::UpdateFailed => LoginError::BadClientData,
            DirectoryError::NotFound => LoginError::BadClientData,
        }
    }
}

impl UserError {
    pub open spec fn status_spec(&self) -> u16 {
        match self {
            UserError::InternalError => 500,
            UserError::BadClientData => 400,
            UserError::Timeout => 504,
            UserError::ValidationError { .. } => 400,
        }
    }

    pub open spec fn message_spec(&self) -> Seq<char> {
        match self {
            UserError::InternalError => "internal error"@,
            UserError::BadClientData => "bad request"@,
            UserError::Timeout => "timeout"@,
            UserError::ValidationError { field } => validation_message(field@),
        }
    }

    pub fn status_code(&self) -> (r: u16)
        ensures
            r == self.status_spec(),
    {
        match self {
            UserError::InternalError => 500,
            UserError::BadClientData => 400,
            UserError::Timeout => 504,
            UserError::ValidationError { .. } => 400,
        }
    }

    /// The text shown to the caller.
    pub fn message(&self) -> (r: String)
        ensures
            r@ == self.message_spec(),
    {
        match self {
            UserError::InternalError => "internal error".to_owned(),
            UserError::BadClientData => "bad request".to_owned(),
            UserError::Timeout => "timeout".to_owned(),
            UserError::ValidationError { field } => validation_text(field),
        }
    }

    pub fn error_response(&self) -> (r: ErrorResponse)
        ensures
            r.code == self.status_spec(),
            r.status@ == "fail"@,
            r.message@ == self.message_spec(),
    {
        ErrorResponse { code: self.status_code(), status: "fail".to_owned(), message: self.message() }
    }

    /// How the row count of an update or a delete is answered: a failed write is
    /// internal, no row touched is the caller's.
    pub fn from_rows(rows: Result<usize, DirectoryError>) -> (r: Result<usize, UserError>)
        ensures
            rows matches Ok(n) ==> (n > 0 ==> r == Ok::<usize, UserError>(n)),
            rows == Ok::<usize, DirectoryError>(0) ==> r == Err::<usize, UserError>(UserError::BadClientData),
            rows is Err ==> r == Err::<usize, UserError>(UserError::InternalError),
    {
        match rows {
            Ok(n) => if n == 0 {
                Err(UserError::BadClientData)
            } else {
                Ok(n)
            },
            Err(_) => Err(UserError::InternalError),
        }
    }
}

} // verus!
