//! Taking the service's logger from a request.
use vstd::prelude::*;

use crate::errors::{Error, ErrorKind};

verus! {

/// The key under which the service keeps its logger.
pub struct IronLogger;

impl IronLogger {
    /// The logger that the lookup in the request found, or, when the lookup
    /// failed with an error that displays `cause`, a logger extraction error
    /// caused by it.
    pub fn from_request<L>(lookup: Result<L, String>) -> (r: Result<L, Error>)
        ensures
            lookup matches Ok(l) ==> r == Ok::<L, Error>(l),
            lookup matches Err(cause) ==> (r matches Err(e) && e.kind == ErrorKind::LoggerExtractionError
                && e.causes@.map_values(|c: String| c@) == seq![cause@]),
    {
        match lookup {
            Ok(l) => Ok(l),
            Err(cause) => Err(Error::chained(ErrorKind::LoggerExtractionError, cause)),
        }
    }
}

} // verus!
