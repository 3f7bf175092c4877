//! Tells a response body apart: the payload of a success, the failure that the
//! service reported, or a body of unknown shape.

use vstd::prelude::*;
use crate::error::Error;
use crate::json::{
    as_optional_text, as_unsigned, found, get, member, parse_document, parsed, read_optional_text,
    read_unsigned, render, rendered, Diagnostic, Json,
};

verus! {

/// A type that the `data` member of an envelope can be read as.
pub trait Payload: Sized {
    /// Whether `data` has the shape of this payload.
    spec fn accepts(data: Json) -> bool;

    /// Whether `out` is what `data` says, read as this payload.
    spec fn holds(data: Json, out: Self) -> bool;

    /// Reads `data` as this payload; `None` where it has another shape.
    fn decode(data: &Json) -> (r: Option<Self>)
        ensures
            r is Some <==> Self::accepts(*data),
            r matches Some(out) ==> Self::holds(*data, out),
    ;
}

/// A response that carries the status code of the service.
pub trait DeserializeCheck {
    /// The status code, as contracts speak of it.
    spec fn code(&self) -> usize;

    /// The status code.
    fn status_code(&self) -> (c: usize)
        ensures
            c == self.code(),
    ;
}

/// What every response of the service is wrapped in.
#[derive(Debug)]
pub struct Envelope<T> {
    pub status_code: usize,
    pub data: T,
    pub message: Option<String>,
}

/// The shape in which the service reports a failure.
#[derive(Debug)]
pub struct ErrorDeserialize {
    pub status_code: usize,
    pub message: String,
    pub data: Option<String>,
}

impl<T> DeserializeCheck for Envelope<T> {
    open spec fn code(&self) -> usize {
        self.status_code
    }

    fn status_code(&self) -> (c: usize) {
        self.status_code
    }
}

impl DeserializeCheck for ErrorDeserialize {
    open spec fn code(&self) -> usize {
        self.status_code
    }

    fn status_code(&self) -> (c: usize) {
        self.status_code
    }
}

/// The member that holds the status code: `statusCode`, or where there is
/// none, `status_code`.
pub open spec fn code_member(fields: Seq<(String, Json)>) -> Option<Json> {
    match member(fields, "statusCode"@) {
        Some(value) => Some(value),
        None => member(fields, "status_code"@),
    }
}

/// The `data` member; a missing one reads as `null`.
pub open spec fn data_member(fields: Seq<(String, Json)>) -> Json {
    match member(fields, "data"@) {
        Some(value) => value,
        None => Json::Null,
    }
}

/// The status code of an envelope: success where there is none, and `None`
/// where the member is no status code.
pub open spec fn envelope_code(fields: Seq<(String, Json)>) -> Option<usize> {
    match code_member(fields) {
        Some(value) => as_unsigned(Some(value)),
        None => Some(0),
    }
}

/// The text of an optional text, empty where there is none.
pub open spec fn text_or_empty(text: Option<String>) -> Seq<char> {
    match text {
        Some(s) => s@,
        None => Seq::empty(),
    }
}

/// The `data` of a failure as a text: a text is itself, `null` is empty, and
/// any other value is its compact JSON text.
pub open spec fn stringified(data: Json) -> Seq<char> {
    match data {
        Json::Null => Seq::empty(),
        Json::Text(s) => s@,
        _ => rendered(data),
    }
}

/// Whether a document is an envelope around a `T`.
pub open spec fn is_envelope<T: Payload>(document: Json) -> bool {
    match document {
        Json::Object(fields) => {
            &&& envelope_code(fields@) is Some
            &&& as_optional_text(member(fields@, "message"@)) is Some
            &&& T::accepts(data_member(fields@))
        },
        _ => false,
    }
}

/// Whether `envelope` is what the document says, read as an envelope.
pub open spec fn envelope_holds<T: Payload>(document: Json, envelope: Envelope<T>) -> bool {
    match document {
        Json::Object(fields) => {
            &&& envelope_code(fields@) == Some(envelope.status_code)
            &&& as_optional_text(member(fields@, "message"@)) == Some(envelope.message)
            &&& T::holds(data_member(fields@), envelope.data)
        },
        _ => false,
    }
}

/// Why a document is no envelope around a `T`: the first of the status code,
/// `data` and `message`, in that order, that is missing or of another kind
/// than the envelope wants, under the key that the document has it under.
/// It says nothing of a document that is such an envelope.
pub open spec fn envelope_fault<T: Payload>(document: Json) -> Seq<char> {
    match document {
        Json::Object(fields) => if envelope_code(fields@) is None {
            if member(fields@, "statusCode"@) is Some {
                "member `statusCode` is no unsigned integer"@
            } else {
                "member `status_code` is no unsigned integer"@
            }
        } else if !T::accepts(data_member(fields@)) {
            if member(fields@, "data"@) is None {
                "member `data` is missing"@
            } else {
                "member `data` has another shape than the call expects"@
            }
        } else {
            "member `message` is neither a text nor null"@
        },
        _ => "the body is no JSON object"@,
    }
}

/// Whether a diagnostic says why a document is no envelope around a `T`:
/// it holds the fault, and gives no place in the text, since a document
/// keeps none.
pub open spec fn tells_fault<T: Payload>(document: Json, diagnostic: Diagnostic) -> bool {
    &&& diagnostic.line == 0
    &&& diagnostic.column == 0
    &&& diagnostic.message@ == envelope_fault::<T>(document)
}

/// The failure that a document reports, where it has that shape: a status
/// code, a text `message`, and a `data` that is a text, `null` or missing.
pub open spec fn error_payload(document: Json) -> Option<ErrorDeserialize> {
    match document {
        Json::Object(fields) => match (
            code_member(fields@),
            member(fields@, "message"@),
            as_optional_text(member(fields@, "data"@)),
        ) {
            (Some(code), Some(Json::Text(message)), Some(data)) => match as_unsigned(Some(code)) {
                Some(status_code) => Some(ErrorDeserialize { status_code, message, data }),
                None => None,
            },
            _ => None,
        },
        _ => None,
    }
}

/// Whether a status code stands for success: 0 does, and so does each code
/// that the caller names as benign for the call.
pub open spec fn is_success(code: usize, benign: Seq<usize>) -> bool {
    code == 0 || benign.contains(code)
}

/// Whether `r` is the classification of a body that `serde_json` parsed with
/// the given outcome, for a call on which the codes `benign` count as success.
///
/// An unknown response holds why the body could not be read as the envelope:
/// the diagnostic of the parser for a text that is no JSON, and the fault of
/// the envelope for a document of neither shape. It never holds why the body
/// is no report of a failure.
pub open spec fn classified<T: Payload>(
    outcome: Result<Json, Diagnostic>,
    benign: Seq<usize>,
    r: Result<T, Error>,
) -> bool {
    match outcome {
        Err(e) => r == Err::<T, Error>(Error::UnknownParseResponse(e)),
        Ok(Json::Object(fields)) => if is_envelope::<T>(Json::Object(fields)) {
            let code = envelope_code(fields@).unwrap();
            if is_success(code, benign) {
                r matches Ok(out) && T::holds(data_member(fields@), out)
            } else {
                r matches Err(e) && e.is_application_error(
                    code,
                    text_or_empty(as_optional_text(member(fields@, "message"@)).unwrap()),
                    stringified(data_member(fields@)),
                )
            }
        } else {
            match error_payload(Json::Object(fields)) {
                Some(failure) => r matches Err(e) && e.is_application_error(
                    failure.status_code,
                    failure.message@,
                    text_or_empty(failure.data),
                ),
                None => r matches Err(e) && e.is_shape_mismatch(
                    envelope_fault::<T>(Json::Object(fields)),
                ),
            }
        },
        Ok(other) => r matches Err(e) && e.is_shape_mismatch(envelope_fault::<T>(other)),
    }
}

/// Finds the member that holds the status code.
fn find_code<'a>(fields: &'a Vec<(String, Json)>) -> (r: Option<&'a Json>)
    ensures
        found(r) == code_member(fields@),
{
    match get(fields, "statusCode") {
        Some(value) => Some(value),
        None => get(fields, "status_code"),
    }
}

/// Writes the `data` of a failure as a text.
fn stringify(data: &Json) -> (r: String)
    ensures
        r@ == stringified(*data),
{
    match data {
        Json::Null => String::new(),
        Json::Text(s) => s.clone(),
        _ => render(data),
    }
}

/// Whether `code` is 0 or one of `benign`.
pub fn accepts_code(code: usize, benign: &[usize]) -> (r: bool)
    ensures
        r == is_success(code, benign@),
{
    if code == 0 {
        return true;
    }
    let mut i: usize = 0;
    while i < benign.len()
        invariant
            i <= benign.len(),
            forall|k: int| 0 <= k < i ==> benign@[k] != code,
        decreases benign.len() - i,
    {
        if benign[i] == code {
            return true;
        }
        i += 1;
    }
    false
}

/// A diagnostic that holds a message and gives no place in the text.
fn fault(message: &str) -> (d: Diagnostic)
    ensures
        d.line == 0,
        d.column == 0,
        d.message@ == message@,
{
    Diagnostic { line: 0, column: 0, message: message.to_owned() }
}

impl<T: Payload> Envelope<T> {
    /// Reads a document as an envelope around a `T`, or says why it is none.
    pub fn read(document: &Json) -> (r: Result<Self, Diagnostic>)
        ensures
            r is Ok <==> is_envelope::<T>(*document),
            r matches Ok(envelope) ==> envelope_holds(*document, envelope),
            r matches Err(diagnostic) ==> tells_fault::<T>(*document, diagnostic),
    {
        let fields = match document {
            Json::Object(fields) => fields,
            _ => {
                return Err(fault("the body is no JSON object"));
            },
        };
        let code = match find_code(fields) {
            Some(value) => read_unsigned(Some(value)),
            None => Some(0),
        };
        let status_code = match code {
            Some(status_code) => status_code,
            None => {
                return match get(fields, "statusCode") {
                    Some(_) => Err(fault("member `statusCode` is no unsigned integer")),
                    None => Err(fault("member `status_code` is no unsigned integer")),
                };
            },
        };
        let data = match get(fields, "data") {
            Some(value) => match T::decode(value) {
                Some(data) => data,
                None => {
                    return Err(fault("member `data` has another shape than the call expects"));
                },
            },
            None => match T::decode(&Json::Null) {
                Some(data) => data,
                None => {
                    return Err(fault("member `data` is missing"));
                },
            },
        };
        let message = match read_optional_text(get(fields, "message")) {
            Some(message) => message,
            None => {
                return Err(fault("member `message` is neither a text nor null"));
            },
        };
        Ok(Envelope { status_code, data, message })
    }

    /// Reads a document as an envelope around a `T`; `None` where it is none.
    pub fn from_document(document: &Json) -> (r: Option<Self>)
        ensures
            r is Some <==> is_envelope::<T>(*document),
            r matches Some(envelope) ==> envelope_holds(*document, envelope),
    {
        match Self::read(document) {
            Ok(envelope) => Some(envelope),
            Err(_) => None,
        }
    }
}

impl ErrorDeserialize {
    /// Reads a document as the report of a failure.
    pub fn from_document(document: &Json) -> (r: Option<Self>)
        ensures
            r == error_payload(*document),
    {
        match document {
            Json::Object(fields) => {
                let status_code = match find_code(fields) {
                    Some(value) => read_unsigned(Some(value)),
                    None => None,
                };
                let message = match get(fields, "message") {
                    Some(Json::Text(s)) => Some(s.clone()),
                    _ => None,
                };
                let data = read_optional_text(get(fields, "data"));
                match (status_code, message, data) {
                    (Some(status_code), Some(message), Some(data)) => Some(
                        ErrorDeserialize { status_code, message, data },
                    ),
                    _ => None,
                }
            },
            _ => None,
        }
    }

    /// The failure that this report stands for.
    pub fn into_error(self) -> (e: Error)
        ensures
            e.is_application_error(self.status_code, self.message@, text_or_empty(self.data)),
    {
        let data = match self.data {
            Some(text) => text,
            None => String::new(),
        };
        Error::ParseResponse(self.status_code, self.message, data)
    }
}

/// Classifies a body that has been parsed already, or has failed to parse.
///
/// A document that is an envelope around a `T` gives its payload where its
/// status code stands for success, and otherwise the failure it reports, with
/// its `data` written as a text. A document that is no such envelope is read
/// as the report of a failure. What is neither, or did not parse, is an
/// unknown response: it holds why the body could not be read as the
/// envelope, which for a text that is no JSON is the diagnostic of the parser.
pub fn classify<T: Payload>(outcome: Result<Json, Diagnostic>, benign: &[usize]) -> (r: Result<
    T,
    Error,
>)
    ensures
        classified(outcome, benign@, r),
{
    let document = match outcome {
        Ok(document) => document,
        Err(e) => {
            return Err(Error::UnknownParseResponse(e));
        },
    };
    match Envelope::<T>::read(&document) {
        Ok(envelope) => {
            if accepts_code(envelope.status_code(), benign) {
                Ok(envelope.data)
            } else {
                let message = match envelope.message {
                    Some(text) => text,
                    None => String::new(),
                };
                let data = match &document {
                    Json::Object(fields) => match get(fields, "data") {
                        Some(value) => stringify(value),
                        None => String::new(),
                    },
                    _ => String::new(),
                };
                Err(Error::ParseResponse(envelope.status_code, message, data))
            }
        },
        Err(cause) => match ErrorDeserialize::from_document(&document) {
            Some(failure) => Err(failure.into_error()),
            None => Err(Error::UnknownParseResponse(cause)),
        },
    }
}

/// Classifies the body of a response: the payload of a success, the failure
/// that the service reported, or an unknown response.
///
/// The body is parsed by `serde_json`; what follows is [`classify`].
pub fn deserialize<T: Payload>(json: &str, benign: &[usize]) -> (r: Result<T, Error>)
    ensures
        classified(parsed(json@), benign@, r),
{
    classify(parse_document(json), benign)
}

/// A body that is an envelope with status code 0 classifies as the payload
/// that its `data` holds, whatever codes the call counts as benign.
pub proof fn success_gives_payload<T: Payload>(
    fields: Vec<(String, Json)>,
    benign: Seq<usize>,
    r: Result<T, Error>,
)
    requires
        classified(Ok(Json::Object(fields)), benign, r),
        as_unsigned(code_member(fields@)) == Some(0usize),
        as_optional_text(member(fields@, "message"@)) is Some,
        T::accepts(data_member(fields@)),
    ensures
        r matches Ok(out) && T::holds(data_member(fields@), out),
{
}

/// A body that is an envelope with a status code that the call counts as
/// benign classifies as the payload that its `data` holds.
pub proof fn benign_code_gives_payload<T: Payload>(
    fields: Vec<(String, Json)>,
    benign: Seq<usize>,
    r: Result<T, Error>,
    code: usize,
)
    requires
        classified(Ok(Json::Object(fields)), benign, r),
        as_unsigned(code_member(fields@)) == Some(code),
        benign.contains(code),
        as_optional_text(member(fields@, "message"@)) is Some,
        T::accepts(data_member(fields@)),
    ensures
        r matches Ok(out) && T::holds(data_member(fields@), out),
{
}

/// A body with a status code that does not stand for success, a text
/// `message`, and a `data` that is either a `T` or a text, `null` or missing,
/// classifies as the failure with that code, that message and that data
/// written as a text.
pub proof fn failure_code_gives_application_error<T: Payload>(
    fields: Vec<(String, Json)>,
    benign: Seq<usize>,
    r: Result<T, Error>,
    code: usize,
    message: String,
)
    requires
        classified(Ok(Json::Object(fields)), benign, r),
        as_unsigned(code_member(fields@)) == Some(code),
        !is_success(code, benign),
        member(fields@, "message"@) == Some(Json::Text(message)),
        T::accepts(data_member(fields@)) || as_optional_text(member(fields@, "data"@)) is Some,
    ensures
        r matches Err(e) && e.is_application_error(
            code,
            message@,
            stringified(data_member(fields@)),
        ),
{
}

/// A document that is no envelope around a `T` but has the shape of a
/// reported failure classifies as that failure, and never as an unknown
/// response.
pub proof fn fallback_gives_application_error<T: Payload>(
    document: Json,
    benign: Seq<usize>,
    r: Result<T, Error>,
)
    requires
        classified(Ok(document), benign, r),
        !is_envelope::<T>(document),
        error_payload(document) is Some,
    ensures
        r matches Err(e) && e.is_application_error(
            error_payload(document).unwrap().status_code,
            error_payload(document).unwrap().message@,
            text_or_empty(error_payload(document).unwrap().data),
        ),
        !(r matches Err(Error::UnknownParseResponse(_))),
{
}

/// A text that does not parse classifies as an unknown response that holds
/// the diagnostic of the parser.
pub proof fn unparsed_gives_unknown_response<T: Payload>(
    diagnostic: Diagnostic,
    benign: Seq<usize>,
    r: Result<T, Error>,
)
    requires
        classified(Err(diagnostic), benign, r),
    ensures
        r == Err::<T, Error>(Error::UnknownParseResponse(diagnostic)),
{
}

/// A document of neither shape classifies as an unknown response that holds
/// why the document is no envelope around a `T`, and not why it is no report
/// of a failure.
pub proof fn neither_shape_gives_unknown_response<T: Payload>(
    document: Json,
    benign: Seq<usize>,
    r: Result<T, Error>,
)
    requires
        classified(Ok(document), benign, r),
        !is_envelope::<T>(document),
        error_payload(document) is None,
    ensures
        r matches Err(Error::UnknownParseResponse(diagnostic)) && tells_fault::<T>(
            document,
            diagnostic,
        ),
{
}

/// The fault of a document that is no envelope names the member that is in
/// the way: the status code where that is no unsigned integer; else `data`
/// where that is no `T`; and `message` only where both of them are in order.
pub proof fn fault_names_first_member<T: Payload>(fields: Vec<(String, Json)>)
    requires
        !is_envelope::<T>(Json::Object(fields)),
    ensures
        envelope_code(fields@) is None ==> envelope_fault::<T>(Json::Object(fields)) == (if member(
            fields@,
            "statusCode"@,
        ) is Some {
            "member `statusCode` is no unsigned integer"@
        } else {
            "member `status_code` is no unsigned integer"@
        }),
        envelope_code(fields@) is Some && !T::accepts(data_member(fields@))
            ==> envelope_fault::<T>(Json::Object(fields)) == (if member(fields@, "data"@) is None {
            "member `data` is missing"@
        } else {
            "member `data` has another shape than the call expects"@
        }),
        envelope_code(fields@) is Some && T::accepts(data_member(fields@)) ==> as_optional_text(
            member(fields@, "message"@),
        ) is None && envelope_fault::<T>(Json::Object(fields))
            == "member `message` is neither a text nor null"@,
{
}

/// The classification of a body is fixed up to what the payload type counts
/// as the same payload: two results for one outcome are both successes, or
/// the same kind of failure with the same code and texts.
pub proof fn classification_is_determined<T: Payload>(
    outcome: Result<Json, Diagnostic>,
    benign: Seq<usize>,
    r1: Result<T, Error>,
    r2: Result<T, Error>,
)
    requires
        classified(outcome, benign, r1),
        classified(outcome, benign, r2),
    ensures
        r1 is Ok <==> r2 is Ok,
        r1 matches Err(Error::ParseResponse(c1, m1, d1)) ==> r2 matches Err(
            Error::ParseResponse(c2, m2, d2),
        ) && c1 == c2 && m1@ == m2@ && d1@ == d2@,
        r1 matches Err(Error::UnknownParseResponse(_)) <==> r2 matches Err(
            Error::UnknownParseResponse(_),
        ),
{
}

} // verus!
