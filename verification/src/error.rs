//! The failures that a call of the API can end in.

use vstd::prelude::*;
use crate::json::Diagnostic;

verus! {

/// Why a call of the API failed.
#[derive(Debug)]
pub enum Error {
    /// The input could not be turned into a request payload.
    ParseInput(Diagnostic),
    /// The service answered with a status code that does not stand for
    /// success: the code, the message and the data of its answer.
    ParseResponse(usize, String, String),
    /// The body is neither the expected envelope nor an error payload: why
    /// it could not be read as the envelope.
    UnknownParseResponse(Diagnostic),
    /// The request could not be carried out: what the transport reported.
    HttpRequest(String),
    /// The service answered with an HTTP status outside 200 to 299.
    HttpResponseCode(u16),
}

pub type UptoboxResult<T = ()> = Result<T, Error>;

impl Error {
    /// Whether this is the failure that the service itself reported, with the
    /// given code, message and data.
    pub open spec fn is_application_error(
        self,
        code: usize,
        message: Seq<char>,
        data: Seq<char>,
    ) -> bool {
        match self {
            Error::ParseResponse(c, m, d) => c == code && m@ == message && d@ == data,
            _ => false,
        }
    }

    /// Whether this is the failure of a body that is a JSON document of
    /// neither shape: its diagnostic holds `message`, and gives no place in
    /// the text, since a document keeps none.
    pub open spec fn is_shape_mismatch(self, message: Seq<char>) -> bool {
        match self {
            Error::UnknownParseResponse(d) => d.line == 0 && d.column == 0 && d.message@
                == message,
            _ => false,
        }
    }
}

} // verus!
