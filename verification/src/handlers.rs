//! The answers of the payment service.
use vstd::prelude::*;

use crate::errors::{kind_text, ErrorKind};
use crate::json::{error_object, json_string};
use crate::log::IronLogger;
use crate::status::Status;

verus! {

/// What came of reading a request's body as JSON.
#[derive(Clone, Copy, PartialEq, Eq)]
pub enum PaymentBody {
    /// The body is a JSON value.
    Json,
    /// The request has no body.
    Empty,
    /// The body could not be read as JSON.
    Invalid,
}

/// The response that reports an error: its status, its body, and the text of
/// the error.
pub struct ErrorResponse {
    pub status: Status,
    pub body: String,
    pub message: String,
}

/// The first step of a submitted payment, before its body is read: the logger
/// that the lookup in the request found, or, when the lookup failed with an
/// error that displays `cause`, the answer to the request: 500, with the
/// JSON body that reports a logger extraction error caused by it.
pub fn payment_logger<L>(lookup: Result<L, String>) -> (r: Result<L, ErrorResponse>)
    ensures
        lookup matches Ok(l) ==> r == Ok::<L, ErrorResponse>(l),
        lookup matches Err(cause) ==> (r matches Err(resp) && {
            &&& resp.status == Status::InternalServerError
            &&& resp.message@ == kind_text(ErrorKind::LoggerExtractionError)
            &&& resp.body@ == error_object(
                json_string(kind_text(ErrorKind::LoggerExtractionError)),
                seq![json_string(kind_text(ErrorKind::LoggerExtractionError)), json_string(cause@)],
            )
        }),
{
    match IronLogger::from_request(lookup) {
        Ok(l) => Ok(l),
        Err(e) => {
            let (status, body) = e.response();
            let message = e.display();
            proof {
                let texts = e.message_texts();
                assert(texts =~= seq![kind_text(e.kind), e.causes@[0]@]) by {
                    assert(e.causes@.map_values(|c: String| c@)[0] == e.causes@[0]@);
                }
                assert(texts.map_values(|m: Seq<char>| json_string(m)) =~= seq![
                    json_string(kind_text(e.kind)),
                    json_string(e.causes@[0]@),
                ]);
            }
            Err(ErrorResponse { status, body, message })
        },
    }
}

/// The answer to any request: 200 and the text "Hello World".
pub fn hello_world() -> (r: (Status, &'static str))
    ensures
        r.0 == Status::OK,
        r.1@ == "Hello World"@,
{
    (Status::OK, "Hello World")
}

/// The status that answers a submitted payment: 200 for a JSON body, 400 for
/// a missing body or one that is not JSON.
pub fn submit_payment(body: PaymentBody) -> (s: Status)
    ensures
        body == PaymentBody::Json ==> s == Status::OK,
        body != PaymentBody::Json ==> s == Status::BadRequest,
{
    match body {
        PaymentBody::Json => Status::OK,
        PaymentBody::Empty => Status::BadRequest,
        PaymentBody::Invalid => Status::BadRequest,
    }
}

} // verus!
