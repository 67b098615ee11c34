//! The ROS envelope on top of XMLRPC.
//!
//! Every ROS master or slave call answers with a three-element tuple
//! `[code, statusMessage, value]`: code `1` is success, `-1` a client
//! error, `0` a server error, anything else a server error too.  The
//! master wraps results in singleton arrays, which are stripped before the
//! tuple is read.

use crate::value::{remove_array_wrappers, spec_unwrap_wrappers, Value};
use vstd::prelude::*;

verus! {

/// An error reported through the envelope: caused by the caller or by the
/// remote side.
#[derive(Debug, Clone, PartialEq)]
pub enum ResponseError {
    /// The caller misused the API.
    Client(String),
    /// The remote side failed.
    Server(String),
}

/// The result of a ROS-wrapped XMLRPC call.
pub type Response<T> = Result<T, ResponseError>;

/// The code that marks a client-caused error.
pub const ERROR_CODE: i32 = -1;

/// The code that marks a server-side failure.
pub const FAILURE_CODE: i32 = 0;

/// The code that marks success.
pub const SUCCESS_CODE: i32 = 1;

/// Wrapper around a ROS XMLRPC call result.
#[derive(Debug, PartialEq)]
pub struct ResponseInfo {
    pub code: i32,
    pub message: String,
    pub data: Value,
}

/// The spec-level reading of a value list as the ROS response tuple.
pub open spec fn spec_envelope(vals: Seq<Value>) -> Option<(i32, Seq<char>, Value)> {
    if vals.len() == 3 && (vals[0] is Int) && (vals[1] is Str) {
        Some((vals[0]->Int_0, vals[1]->Str_0@, vals[2]))
    } else {
        None
    }
}

impl ResponseInfo {
    /// Construct a new `ResponseInfo` from individual components.
    pub fn new(code: i32, message: String, data: Value) -> (r: Self)
        ensures
            r.code == code,
            r.message == message,
            r.data == data,
    {
        Self { code, message, data }
    }

    /// Reads a `(code, statusMessage, value)` tuple; any other shape is a
    /// server error.
    pub fn try_from_array(parameters: Vec<Value>) -> (r: Result<Self, ResponseError>)
        ensures
            match r {
                Ok(info) => spec_envelope(parameters@) == Some(
                    (info.code, info.message@, info.data),
                ),
                Err(e) => spec_envelope(parameters@) is None && e is Server,
            },
    {
        let mut parameters = parameters;
        if parameters.len() != 3 {
            return Err(
                ResponseError::Server(
                    String::from_str(
                        "response with three parameters (int code, str msg, value) expected from server",
                    ),
                ),
            );
        }
        let data = parameters.pop().unwrap();
        let message = parameters.pop().unwrap();
        let code = parameters.pop().unwrap();
        match (code, message) {
            (Value::Int(code), Value::Str(message)) => Ok(Self { code, message, data }),
            _ => Err(
                ResponseError::Server(
                    String::from_str(
                        "response with three parameters (int code, str msg, value) expected from server",
                    ),
                ),
            ),
        }
    }

    /// Constructs a `ResponseInfo` from a `Response` of a value.
    pub fn from_response(response: Response<Value>, message: &str) -> (r: Self)
        ensures
            match response {
                Ok(data) => r.code == SUCCESS_CODE && r.message@ == message@ && r.data == data,
                Err(ResponseError::Client(m)) => r.code == ERROR_CODE && r.message == m,
                Err(ResponseError::Server(m)) => r.code == FAILURE_CODE && r.message == m,
            },
    {
        match response {
            Ok(data) => Self::from_response_success(data, message),
            Err(err) => Self::from_response_error(err),
        }
    }

    /// Constructs a `ResponseInfo` from a `ResponseError`.
    pub fn from_response_error(err: ResponseError) -> (r: Self)
        ensures
            match err {
                ResponseError::Client(m) => r.code == ERROR_CODE && r.message == m,
                ResponseError::Server(m) => r.code == FAILURE_CODE && r.message == m,
            },
    {
        match err {
            ResponseError::Client(msg) => Self::from_client_error(msg),
            ResponseError::Server(msg) => Self::from_server_error(msg),
        }
    }

    /// The envelope for an error the caller caused.
    pub fn from_client_error(message: String) -> (r: Self)
        ensures
            r.code == ERROR_CODE,
            r.message == message,
            r.data == Value::Int(0),
    {
        Self::new(ERROR_CODE, message, Value::Int(0))
    }

    /// The envelope for a failure on this side.
    pub fn from_server_error(message: String) -> (r: Self)
        ensures
            r.code == FAILURE_CODE,
            r.message == message,
            r.data == Value::Int(0),
    {
        Self::new(FAILURE_CODE, message, Value::Int(0))
    }

    /// The envelope for a successful result.
    pub fn from_response_success(data: Value, message: &str) -> (r: Self)
        ensures
            r.code == SUCCESS_CODE,
            r.message@ == message@,
            r.data == data,
    {
        Self::new(SUCCESS_CODE, String::from_str(message), data)
    }

    /// The wire shape of the envelope: a singleton array holding the
    /// `[code, statusMessage, value]` tuple.
    pub fn into_envelope(self) -> (r: Vec<Value>)
        ensures
            r@.len() == 1,
            r@[0] is Array,
            r@[0]->Array_0@.len() == 3,
            r@[0]->Array_0@[0] == Value::Int(self.code),
            r@[0]->Array_0@[1] == Value::Str(self.message),
            r@[0]->Array_0@[2] == self.data,
    {
        let mut tuple: Vec<Value> = Vec::new();
        tuple.push(Value::Int(self.code));
        tuple.push(Value::Str(self.message));
        tuple.push(self.data);
        let mut out: Vec<Value> = Vec::new();
        out.push(Value::Array(tuple));
        out
    }

    /// Reads the envelope back as a `Response`: success yields the data,
    /// the two error codes their message, and any unknown code a server
    /// error.
    pub fn into_response(self) -> (r: Response<Value>)
        ensures
            self.code == SUCCESS_CODE ==> r == Response::<Value>::Ok(self.data),
            self.code == ERROR_CODE ==> r == Response::<Value>::Err(
                ResponseError::Client(self.message),
            ),
            self.code == FAILURE_CODE ==> r == Response::<Value>::Err(
                ResponseError::Server(self.message),
            ),
            self.code != SUCCESS_CODE && self.code != ERROR_CODE && self.code != FAILURE_CODE
                ==> (r matches Response::<Value>::Err(e) && e is Server),
    {
        if self.code == SUCCESS_CODE {
            Ok(self.data)
        } else if self.code == ERROR_CODE {
            Err(ResponseError::Client(self.message))
        } else if self.code == FAILURE_CODE {
            Err(ResponseError::Server(self.message))
        } else {
            Err(ResponseError::Server(String::from_str("bad response code returned from server")))
        }
    }
}

/// A client error for a request that could not be serialised.
pub fn bad_request_structure(message: String) -> (r: ResponseError)
    ensures
        r == ResponseError::Client(message),
{
    ResponseError::Client(message)
}

/// A server error for a response with an unexpected structure.
pub fn bad_response_structure(message: String) -> (r: ResponseError)
    ensures
        r == ResponseError::Server(message),
{
    ResponseError::Server(message)
}

/// Decodes a raw XMLRPC response parameter list into the call's result:
/// strips singleton-array wrappers, reads the `[code, msg, value]` tuple
/// and turns the code into success or the matching error.
pub fn decode_ros_response(params: Vec<Value>) -> (r: Response<Value>)
    ensures
        ({
            let u = spec_unwrap_wrappers(params@);
            match spec_envelope(u) {
                None => r matches Response::<Value>::Err(e) && e is Server,
                Some((code, message, data)) => {
                    &&& code == SUCCESS_CODE ==> r == Response::<Value>::Ok(data)
                    &&& code == ERROR_CODE ==> (r matches Response::<Value>::Err(
                        ResponseError::Client(m),
                    ) && m@ == message)
                    &&& code == FAILURE_CODE ==> (r matches Response::<Value>::Err(
                        ResponseError::Server(m),
                    ) && m@ == message)
                    &&& code != SUCCESS_CODE && code != ERROR_CODE && code != FAILURE_CODE ==> (
                    r matches Response::<Value>::Err(e) && e is Server)
                },
            }
        }),
{
    let unwrapped = remove_array_wrappers(params);
    match ResponseInfo::try_from_array(unwrapped) {
        Ok(info) => info.into_response(),
        Err(e) => Err(e),
    }
}

} // verus!

