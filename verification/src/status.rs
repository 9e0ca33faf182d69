use vstd::prelude::*;

verus! {

/// The HTTP status codes that the bank's services answer with.
#[derive(Debug, Clone, Copy, PartialEq, Eq, Structural)]
pub enum Status {
    OK,
    Created,
    BadRequest,
    NotFound,
    Conflict,
    UnprocessableEntity,
    InternalServerError,
}

/// The numeric code of a status, as RFC 9110 assigns it.
pub open spec fn status_code_number(s: Status) -> u16 {
    match s {
        Status::OK => 200,
        Status::Created => 201,
        Status::BadRequest => 400,
        Status::NotFound => 404,
        Status::Conflict => 409,
        Status::UnprocessableEntity => 422,
        Status::InternalServerError => 500,
    }
}

/// The reason phrase of a status.
pub open spec fn reason_phrase(s: Status) -> Seq<char> {
    match s {
        Status::OK => "OK"@,
        Status::Created => "Created"@,
        Status::BadRequest => "Bad Request"@,
        Status::NotFound => "Not Found"@,
        Status::Conflict => "Conflict"@,
        Status::UnprocessableEntity => "Unprocessable Entity"@,
        Status::InternalServerError => "Internal Server Error"@,
    }
}

impl Status {
    /// The reason phrase of this status.
    pub fn reason(&self) -> (r: &'static str)
        ensures
            r@ == reason_phrase(*self),
    {
        match self {
            Status::OK => "OK",
            Status::Created => "Created",
            Status::BadRequest => "Bad Request",
            Status::NotFound => "Not Found",
            Status::Conflict => "Conflict",
            Status::UnprocessableEntity => "Unprocessable Entity",
            Status::InternalServerError => "Internal Server Error",
        }
    }

    /// The numeric code of this status.
    pub fn code(&self) -> (c: u16)
        ensures
            c == status_code_number(*self),
    {
        match self {
            Status::OK => 200,
            Status::Created => 201,
            Status::BadRequest => 400,
            Status::NotFound => 404,
            Status::Conflict => 409,
            Status::UnprocessableEntity => 422,
            Status::InternalServerError => 500,
        }
    }
}

} // verus!
