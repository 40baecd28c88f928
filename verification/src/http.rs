//! HTTP status handling: the typed error carried by every request
//! helper, and the rules that turn a response's status code and body
//! into an envelope. The JSON parse itself happens outside; its outcome
//! is handed in as a `ParsedBody`, and everything decided from it here
//! is verified.

use vstd::prelude::*;

use crate::generic::DataWrapper;

verus! {

/// Error returned by request helpers: the HTTP status code (0 when the
/// failure happened before any status was known) and a human-readable
/// message, usually the raw response body or the transport error text.
#[derive(Debug)]
pub struct ResponseError {
    pub status: u16,
    pub message: String,
}

impl ResponseError {
    /// An error with no known status code.
    pub fn from(message: String) -> (r: ResponseError)
        ensures
            r.status == 0,
            r.message == message,
    {
        ResponseError { status: 0, message }
    }

    /// An error built from a transport failure: the failure's own status
    /// code when it carries one, 400 otherwise.
    pub fn from_parts(status: Option<u16>, message: String) -> (r: ResponseError)
        ensures
            r.message == message,
            status is Some ==> r.status == status->0,
            status is None ==> r.status == 400,
    {
        match status {
            Some(s) => ResponseError { status: s, message },
            None => ResponseError { status: 400, message },
        }
    }

    pub fn get_message(&self) -> (r: String)
        ensures
            r == self.message,
    {
        self.message.clone()
    }

    pub fn get_status(&self) -> (r: u16)
        ensures
            r == self.status,
    {
        self.status
    }
}

/// The outcome of running the JSON parser on a response body: the parsed
/// envelope, or the parser's error message.
pub enum ParsedBody<T> {
    Parsed(DataWrapper<T>),
    Unparsed(String),
}

/// A successful HTTP status (2xx).
pub open spec fn is_success_status(status: u16) -> bool {
    200 <= status < 300
}

impl<T> DataWrapper<T> {
    /// Builds the envelope for a response with the given status code and
    /// body, given the outcome of parsing that body.
    ///
    /// On 2xx with an empty body or a 204, the body is ignored and an
    /// empty envelope carries the status. On any other 2xx the parsed
    /// envelope carries the status, and a parse failure is an error. On
    /// non-2xx, a body that parsed is returned as-is with the status,
    /// and one that did not yields an empty envelope holding the raw
    /// body out of band.
    pub fn deserialize_and_set_status(body: &str, status_code: u16, parsed: ParsedBody<T>) -> (r:
        Result<DataWrapper<T>, String>)
        ensures
            is_success_status(status_code) && (status_code == 204 || body@.len() == 0) ==> r
                is Ok && r->Ok_0.items@.len() == 0 && r->Ok_0.http_status_code == Some(status_code)
                && r->Ok_0.error_body is None,
            is_success_status(status_code) && status_code != 204 && body@.len() != 0 ==> (match
            parsed {
                ParsedBody::Parsed(w) => r is Ok && r->Ok_0.items == w.items
                    && r->Ok_0.error_body == w.error_body && r->Ok_0.http_status_code == Some(
                    status_code,
                ),
                ParsedBody::Unparsed(msg) => r == Result::<DataWrapper<T>, String>::Err(msg),
            }),
            !is_success_status(status_code) ==> (match parsed {
                ParsedBody::Parsed(w) => r is Ok && r->Ok_0.items == w.items
                    && r->Ok_0.error_body == w.error_body && r->Ok_0.http_status_code == Some(
                    status_code,
                ),
                ParsedBody::Unparsed(_) => r is Ok && r->Ok_0.items@.len() == 0
                    && r->Ok_0.error_body is Some && r->Ok_0.error_body->0@ == body@
                    && r->Ok_0.http_status_code == Some(status_code),
            }),
    {
        if 200 <= status_code && status_code < 300 {
            if status_code == 204 || body.is_empty() {
                let mut wrapper: DataWrapper<T> = DataWrapper::new();
                wrapper.set_http_status_code(status_code);
                return Ok(wrapper);
            }
            match parsed {
                ParsedBody::Parsed(mut wrapper) => {
                    wrapper.set_http_status_code(status_code);
                    Ok(wrapper)
                },
                ParsedBody::Unparsed(msg) => Err(msg),
            }
        } else {
            match parsed {
                ParsedBody::Parsed(mut wrapper) => {
                    wrapper.set_http_status_code(status_code);
                    Ok(wrapper)
                },
                ParsedBody::Unparsed(_) => {
                    let mut wrapper: DataWrapper<T> = DataWrapper::new();
                    wrapper.error_body = Some(body.to_owned());
                    wrapper.set_http_status_code(status_code);
                    Ok(wrapper)
                },
            }
        }
    }
}

/// Turns a completed response into the caller's result: a 2xx body is
/// assembled into an envelope (a parse failure there is an error carrying
/// the parser's message), while a non-2xx response is an error carrying
/// the status code and the raw body.
pub fn process_response<T>(status: u16, body: &str, parsed: ParsedBody<T>) -> (r: Result<
    DataWrapper<T>,
    ResponseError,
>)
    ensures
        !is_success_status(status) ==> r is Err && r->Err_0.status == status
            && r->Err_0.message@ == body@,
        is_success_status(status) && (status == 204 || body@.len() == 0) ==> r is Ok
            && r->Ok_0.items@.len() == 0 && r->Ok_0.http_status_code == Some(status)
            && r->Ok_0.error_body is None,
        is_success_status(status) && status != 204 && body@.len() != 0 ==> (match parsed {
            ParsedBody::Parsed(w) => r is Ok && r->Ok_0.items == w.items && r->Ok_0.error_body
                == w.error_body && r->Ok_0.http_status_code == Some(status),
            ParsedBody::Unparsed(msg) => r is Err && r->Err_0.status == status
                && r->Err_0.message == msg,
        }),
{
    if 200 <= status && status < 300 {
        match DataWrapper::<T>::deserialize_and_set_status(body, status, parsed) {
            Ok(w) => Ok(w),
            Err(message) => Err(ResponseError { status, message }),
        }
    } else {
        Err(ResponseError { status, message: body.to_owned() })
    }
}

} // verus!
