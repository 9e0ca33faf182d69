//! The errors of the payment service, and the JSON response that reports one.
use vstd::prelude::*;

use crate::json::{error_object, error_object_text, json_string, to_json_string};
use crate::status::Status;

verus! {

/// The kinds of error of the payment service.
pub enum ErrorKind {
    /// A plain message.
    Msg(String),
    /// The submitted data is not valid JSON; holds the parser's message.
    InvalidJSON(String),
    /// The logger could not be taken from the request.
    LoggerExtractionError,
}

/// The text that the error kind displays.
pub open spec fn kind_text(k: ErrorKind) -> Seq<char> {
    match k {
        ErrorKind::Msg(m) => m@,
        ErrorKind::InvalidJSON(m) => "Could not process request, the submitted data is not valid JSON: "@ + m@,
        ErrorKind::LoggerExtractionError => "Getting logger from iron request failed"@,
    }
}

/// The status of the response that reports an error of this kind.
pub open spec fn kind_status(k: ErrorKind) -> Status {
    match k {
        ErrorKind::InvalidJSON(_) => Status::UnprocessableEntity,
        _ => Status::InternalServerError,
    }
}

impl ErrorKind {
    /// The status of the response that reports this error: 422 for invalid
    /// JSON, 500 for every other kind.
    pub fn status_code(&self) -> (s: Status)
        ensures
            s == kind_status(*self),
    {
        match self {
            ErrorKind::InvalidJSON(_) => Status::UnprocessableEntity,
            _ => Status::InternalServerError,
        }
    }

    /// The text that this error kind displays.
    pub fn display(&self) -> (r: String)
        ensures
            r@ == kind_text(*self),
    {
        match self {
            ErrorKind::Msg(m) => m.clone(),
            ErrorKind::InvalidJSON(m) => {
                let mut s = "Could not process request, the submitted data is not valid JSON: ".to_owned();
                s.append(m.as_str());
                s
            },
            ErrorKind::LoggerExtractionError => "Getting logger from iron request failed".to_owned(),
        }
    }
}

/// An error of the payment service: its kind, and the texts of the errors
/// that caused it, the nearest first.
pub struct Error {
    pub kind: ErrorKind,
    pub causes: Vec<String>,
}

impl Error {
    /// The texts of this error and of its causes, this error's first.
    pub open spec fn message_texts(self) -> Seq<Seq<char>> {
        seq![kind_text(self.kind)] + self.causes@.map_values(|c: String| c@)
    }

    /// An error of this kind with no cause.
    pub fn from_kind(kind: ErrorKind) -> (r: Error)
        ensures
            r.kind == kind,
            r.causes@.len() == 0,
    {
        Error { kind, causes: Vec::new() }
    }

    /// An error of this kind caused by an error that displays `cause`.
    pub fn chained(kind: ErrorKind, cause: String) -> (r: Error)
        ensures
            r.kind == kind,
            r.causes@.map_values(|c: String| c@) == seq![cause@],
    {
        let mut causes = Vec::new();
        causes.push(cause);
        let r = Error { kind, causes };
        assert(r.causes@.map_values(|c: String| c@) =~= seq![r.causes@[0]@]);
        r
    }

    /// The status of the response that reports this error.
    pub fn status_code(&self) -> (s: Status)
        ensures
            s == kind_status(self.kind),
    {
        self.kind.status_code()
    }

    /// The text that this error displays: that of its kind.
    pub fn display(&self) -> (r: String)
        ensures
            r@ == kind_text(self.kind),
    {
        self.kind.display()
    }

    /// The texts of this error and of its causes, this error's first.
    pub fn messages(&self) -> (r: Vec<String>)
        ensures
            r@.map_values(|c: String| c@) == self.message_texts(),
    {
        let mut out: Vec<String> = Vec::new();
        out.push(self.kind.display());
        let n = self.causes.len();
        let mut k: usize = 0;
        while k < n
            invariant
                n == self.causes.len(),
                k <= n,
                out@.len() == k + 1,
                out@[0]@ == kind_text(self.kind),
                forall|i: int| 0 <= i < k ==> #[trigger] out@[i + 1]@ == self.causes@[i]@,
            decreases n - k,
        {
            out.push(self.causes[k].clone());
            k += 1;
        }
        let ghost texts = self.message_texts();
        assert(texts.len() == n + 1);
        assert forall|i: int| 0 <= i < n + 1 implies #[trigger] out@[i]@ == texts[i] by {
            if i > 0 {
                assert(out@[(i - 1) + 1]@ == self.causes@[i - 1]@);
            }
        }
        assert(out@.map_values(|c: String| c@) =~= texts);
        out
    }

    /// The body of the response that reports this error: a JSON object whose
    /// `error` is the text of this error and whose `causes` are the texts of
    /// this error and of its causes.
    pub fn response_body(&self) -> (r: String)
        ensures
            r@ == error_object(
                json_string(kind_text(self.kind)),
                self.message_texts().map_values(|m: Seq<char>| json_string(m)),
            ),
    {
        let text = self.kind.display();
        let error = to_json_string(text.as_str());
        let messages = self.messages();
        let n = messages.len();
        let mut encoded: Vec<String> = Vec::new();
        let mut k: usize = 0;
        while k < n
            invariant
                n == messages.len(),
                messages@.map_values(|c: String| c@) == self.message_texts(),
                k <= n,
                encoded@.len() == k,
                forall|i: int| 0 <= i < k ==> #[trigger] encoded@[i]@ == json_string(messages@[i]@),
            decreases n - k,
        {
            encoded.push(to_json_string(messages[k].as_str()));
            k += 1;
        }
        let r = error_object_text(error.as_str(), &encoded);
        assert(encoded@.map_values(|c: String| c@) =~= self.message_texts().map_values(
            |m: Seq<char>| json_string(m),
        ));
        r
    }

    /// The status and the body of the response that reports this error.
    pub fn response(&self) -> (r: (Status, String))
        ensures
            r.0 == kind_status(self.kind),
            r.1@ == error_object(
                json_string(kind_text(self.kind)),
                self.message_texts().map_values(|m: Seq<char>| json_string(m)),
            ),
    {
        (self.status_code(), self.response_body())
    }
}

} // verus!
