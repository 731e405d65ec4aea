use vstd::prelude::*;
use crate::json::{Json, lookup, int_of, str_of};

verus! {

/// Details of an application error reported by the server.
#[derive(Debug, PartialEq)]
pub struct OdooError {
    pub name: String,
    pub message: String,
    pub exception_type: String,
    pub arguments: Vec<Json>,
    pub debug: String,
}

/// The structured error of a response that carries `error`.
#[derive(Debug, PartialEq)]
pub struct ServerError {
    pub code: u16,
    pub data: OdooError,
}

/// The failures the client tells apart.
#[derive(Debug, PartialEq)]
pub enum Error {
    /// The request did not reach the server or no answer came back.
    Transport(String),
    /// The answer is not JSON; it holds the raw text.
    MalformedPayload(String),
    /// The answer is JSON with neither `result` nor `error`; it holds the raw text.
    UnknownPayload(String),
    /// The value does not have the shape the caller expects.
    Decode { raw: Json, target: String },
    /// The server reported an application error.
    Rpc(ServerError),
    /// The session does not allow the requested transition.
    ClientState(String),
    /// The operation needs a session and there is none.
    NotConnected,
    /// An attribute was asked of a record set that holds no record.
    EmptyRecordSet,
    /// An address could not be formed.
    InvalidUrl(String),
}

/// The `arguments` list under `data` of an error value, when it is an array.
pub open spec fn error_arguments(e: Json) -> Option<Seq<Json>> {
    match lookup(e, "data"@) {
        Some(d) => match lookup(d, "arguments"@) {
            Some(Json::Array(a)) => Some(a@),
            _ => None,
        },
        None => None,
    }
}

/// A text member of the `data` object of an error value.
pub open spec fn error_text(e: Json, key: Seq<char>) -> Option<Seq<char>> {
    match lookup(e, "data"@) {
        Some(d) => str_of(lookup(d, key)),
        None => None,
    }
}

/// `e` has the shape of a server error.
pub open spec fn server_error_shape(e: Json) -> bool {
    &&& int_of(lookup(e, "code"@)) matches Some(c) && 0 <= c <= u16::MAX
    &&& error_text(e, "name"@) is Some
    &&& error_text(e, "message"@) is Some
    &&& error_text(e, "exception_type"@) is Some
    &&& error_arguments(e) is Some
    &&& error_text(e, "debug"@) is Some
}

/// `se` holds what `e` says.
pub open spec fn server_error_from(e: Json, se: ServerError) -> bool {
    &&& int_of(lookup(e, "code"@)) == Some(se.code as int)
    &&& error_text(e, "name"@) == Some(se.data.name@)
    &&& error_text(e, "message"@) == Some(se.data.message@)
    &&& error_text(e, "exception_type"@) == Some(se.data.exception_type@)
    &&& error_arguments(e) == Some(se.data.arguments@)
    &&& error_text(e, "debug"@) == Some(se.data.debug@)
}

impl ServerError {
    /// Reads a server error from the value under `error` of a response; where
    /// the value has another shape, it is handed back unchanged.
    pub fn from_json(e: Json) -> (r: Result<ServerError, Json>)
        ensures
            r is Ok <==> server_error_shape(e),
            r matches Ok(se) ==> server_error_from(e, se),
            r matches Err(back) ==> back == e,
    {
        let code = match e.get_int("code") {
            Some(c) => if 0 <= c && c <= 65535 {
                c as u16
            } else {
                return Err(e);
            },
            None => return Err(e),
        };
        let (name, message, exception_type, debug) = match e.get("data") {
            Some(d) => {
                match (d.get_str("name"), d.get_str("message"), d.get_str("exception_type"), d.get_str("debug")) {
                    (Some(n), Some(m), Some(x), Some(g)) => {
                        match d.get("arguments") {
                            Some(Json::Array(_)) => {},
                            _ => return Err(e),
                        }
                        (n, m, x, g)
                    },
                    _ => return Err(e),
                }
            },
            None => return Err(e),
        };
        let arguments = match e.into_member("data") {
            Some(data) => match data.into_member("arguments") {
                Some(Json::Array(a)) => a,
                _ => {
                    assert(false);
                    Vec::new()
                },
            },
            None => {
                assert(false);
                Vec::new()
            },
        };
        Ok(ServerError { code, data: OdooError { name, message, exception_type, arguments, debug } })
    }
}

} // verus!
