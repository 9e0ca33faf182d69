//! The errors that the account services answer with.
use vstd::prelude::*;

use crate::models::DbError;
use crate::status::Status;

verus! {

/// The errors that the account services answer with.
#[derive(Clone, Copy, PartialEq, Eq)]
pub enum Error {
    NotFound,
    Conflict,
    InternalServerError,
}

/// The error that answers a failure of the accounts table: a missing row is
/// "not found", a taken username is a conflict, anything else is an internal
/// error.
pub open spec fn error_of(err: DbError) -> Error {
    match err {
        DbError::NotFound => Error::NotFound,
        DbError::UniqueViolation => Error::Conflict,
        DbError::Other => Error::InternalServerError,
    }
}

/// The status that answers an error.
pub open spec fn error_status(e: Error) -> Status {
    match e {
        Error::NotFound => Status::NotFound,
        Error::Conflict => Status::Conflict,
        Error::InternalServerError => Status::InternalServerError,
    }
}

/// The text that describes an error.
pub open spec fn error_text(e: Error) -> Seq<char> {
    match e {
        Error::NotFound => "Not Found"@,
        Error::Conflict => "Conflict"@,
        Error::InternalServerError => "Internal Server Error"@,
    }
}

impl From<DbError> for Error {
    fn from(err: DbError) -> (r: Error) {
        match err {
            DbError::NotFound => Error::NotFound,
            DbError::UniqueViolation => Error::Conflict,
            DbError::Other => Error::InternalServerError,
        }
    }
}

impl vstd::std_specs::convert::FromSpecImpl<DbError> for Error {
    open spec fn obeys_from_spec() -> bool {
        true
    }

    open spec fn from_spec(v: DbError) -> Error {
        error_of(v)
    }
}

impl Error {
    /// The status of the response that reports this error.
    pub fn respond(self) -> (s: Status)
        ensures
            s == error_status(self),
    {
        match self {
            Error::NotFound => Status::NotFound,
            Error::Conflict => Status::Conflict,
            Error::InternalServerError => Status::InternalServerError,
        }
    }

    /// The text that describes this error.
    pub fn as_str(&self) -> (r: &'static str)
        ensures
            r@ == error_text(*self),
    {
        match self {
            Error::NotFound => "Not Found",
            Error::Conflict => "Conflict",
            Error::InternalServerError => "Internal Server Error",
        }
    }
}

} // verus!
