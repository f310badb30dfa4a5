//! The failure kinds of the adapter pipeline and their rendered messages.
//! Outside failures (network, JSON) reach the library as plain message
//! strings; every kind propagates to the responder, which renders it into
//! the minimal error document.
use vstd::prelude::*;
use vstd::string::StringExecFns;
use crate::numbers::dec_str;

verus! {

/// The body of an upstream validation failure.
#[derive(Debug, Clone, PartialEq, Eq)]
pub struct ServerValidationBodyError {
    /// The individual validation error messages.
    pub errors: Vec<String>,
}

/// The body of any other upstream failure.
#[derive(Debug, Clone, PartialEq, Eq)]
pub struct ServerOtherBodyError {
    /// The status code the upstream body carried.
    pub status_code: u16,
    /// The status message the upstream body carried.
    pub status_message: String,
}

/// An upstream failure body: either a validation body or any other body.
#[derive(Debug, Clone, PartialEq, Eq)]
pub enum ServerBodyError {
    /// Any non-validation failure body.
    Other(ServerOtherBodyError),
    /// A validation failure body.
    Validation(ServerValidationBodyError),
}

/// An upstream failure together with its HTTP status code.
#[derive(Debug, Clone, PartialEq, Eq)]
pub struct ServerError {
    /// The HTTP status code.
    pub code: u16,
    /// The failure body.
    pub body: ServerBodyError,
}

/// A failure of the adapter pipeline.
#[derive(Debug, Clone, PartialEq, Eq)]
pub enum Error {
    /// The outbound request could not be executed; the message of the
    /// underlying transport failure.
    Request {
        /// The rendered underlying failure.
        source: String,
    },
    /// The response could not be read; the message of the underlying
    /// failure.
    Response {
        /// The rendered underlying failure.
        source: String,
    },
    /// The caller's input was rejected upstream.
    Validation(ServerValidationBodyError),
    /// The upstream service failed with a status code and body.
    Server {
        /// The HTTP status code.
        code: u16,
        /// The failure body.
        content: ServerOtherBodyError,
    },
    /// The HTTP client failed; its rendered message.
    Reqwest(String),
    /// The response body was not the JSON shape expected; the parser's
    /// rendered message.
    SerdeJson(String),
    /// The upstream service rejected the credential.
    Unauthorized(String),
    /// Any other failure, rendered as its message alone.
    Custom(String),
}

/// The items of a validation body rendered as `", item"` each, in order.
pub open spec fn validation_items_msg(items: Seq<Seq<char>>) -> Seq<char>
    decreases items.len(),
{
    if items.len() == 0 {
        Seq::<char>::empty()
    } else {
        validation_items_msg(items.drop_last()) + ", "@ + items.last()
    }
}

/// The rendered message of a validation body.
pub open spec fn validation_msg(e: ServerValidationBodyError) -> Seq<char> {
    "server validation body errors:"@ + validation_items_msg(e.errors.deep_view())
}

/// The rendered message of a non-validation body.
pub open spec fn other_body_msg(e: ServerOtherBodyError) -> Seq<char> {
    "server body error with code "@ + dec_str(e.status_code as nat) + ": "@ + e.status_message@
}

/// The rendered message of an upstream failure body.
pub open spec fn body_msg(e: ServerBodyError) -> Seq<char> {
    match e {
        ServerBodyError::Other(o) => other_body_msg(o),
        ServerBodyError::Validation(v) => validation_msg(v),
    }
}

/// The rendered message of an upstream failure with its status code.
pub open spec fn server_msg(e: ServerError) -> Seq<char> {
    "server error with code "@ + dec_str(e.code as nat) + ": "@ + body_msg(e.body)
}

/// The rendered message of a pipeline failure.
pub open spec fn error_msg(e: Error) -> Seq<char> {
    match e {
        Error::Request { source } => "couldn't execute request"@,
        Error::Response { source } => "couldn't read response"@,
        Error::Validation(v) => "validation failed: "@ + validation_msg(v),
        Error::Server { code, content } => "internal server error with code "@ + dec_str(
            code as nat,
        ) + ": "@ + other_body_msg(content),
        Error::Reqwest(m) => "reqwest error: "@ + m@,
        Error::SerdeJson(m) => "serde_json error: "@ + m@,
        Error::Unauthorized(m) => "401 Unauthorized: "@ + m@,
        Error::Custom(m) => m@,
    }
}

impl ServerValidationBodyError {
    /// Renders this body as its message.
    pub fn message(&self) -> (r: String)
        ensures
            r@ == validation_msg(*self),
    {
        let mut out = String::from_str("server validation body errors:");
        let mut i: usize = 0;
        while i < self.errors.len()
            invariant
                i <= self.errors@.len(),
                out@ == "server validation body errors:"@ + validation_items_msg(
                    self.errors.deep_view().subrange(0, i as int),
                ),
            decreases self.errors@.len() - i,
        {
            let ghost prev = self.errors.deep_view().subrange(0, i as int);
            out.append(", ");
            out.append(self.errors[i].as_str());
            i = i + 1;
            proof {
                let step = self.errors.deep_view().subrange(0, i as int);
                assert(step.drop_last() =~= prev);
                assert(step.last() == self.errors.deep_view()[i - 1]);
                assert(out@ =~= "server validation body errors:"@ + validation_items_msg(step));
            }
        }
        proof {
            assert(self.errors.deep_view().subrange(0, self.errors.deep_view().len() as int)
                =~= self.errors.deep_view());
        }
        out
    }
}

impl ServerOtherBodyError {
    /// Renders this body as its message.
    pub fn message(&self) -> (r: String)
        ensures
            r@ == other_body_msg(*self),
    {
        let mut out = String::from_str("server body error with code ");
        let code = crate::numbers::u64_to_string(self.status_code as u64);
        out.append(code.as_str());
        out.append(": ");
        out.append(self.status_message.as_str());
        proof {
            assert(out@ =~= other_body_msg(*self));
        }
        out
    }
}

impl ServerBodyError {
    /// Renders this body as its message.
    pub fn message(&self) -> (r: String)
        ensures
            r@ == body_msg(*self),
    {
        match self {
            ServerBodyError::Other(o) => o.message(),
            ServerBodyError::Validation(v) => v.message(),
        }
    }
}

impl ServerError {
    /// Renders this failure as its message.
    pub fn message(&self) -> (r: String)
        ensures
            r@ == server_msg(*self),
    {
        let mut out = String::from_str("server error with code ");
        let code = crate::numbers::u64_to_string(self.code as u64);
        out.append(code.as_str());
        out.append(": ");
        let body = self.body.message();
        out.append(body.as_str());
        proof {
            assert(out@ =~= server_msg(*self));
        }
        out
    }
}

impl Error {
    /// Renders this failure as its message.
    pub fn message(&self) -> (r: String)
        ensures
            r@ == error_msg(*self),
    {
        match self {
            Error::Request { source } => String::from_str("couldn't execute request"),
            Error::Response { source } => String::from_str("couldn't read response"),
            Error::Validation(v) => {
                let mut out = String::from_str("validation failed: ");
                let m = v.message();
                out.append(m.as_str());
                proof {
                    assert(out@ =~= error_msg(*self));
                }
                out
            },
            Error::Server { code, content } => {
                let mut out = String::from_str("internal server error with code ");
                let c = crate::numbers::u64_to_string(*code as u64);
                out.append(c.as_str());
                out.append(": ");
                let m = content.message();
                out.append(m.as_str());
                proof {
                    assert(out@ =~= error_msg(*self));
                }
                out
            },
            Error::Reqwest(m) => {
                let mut out = String::from_str("reqwest error: ");
                out.append(m.as_str());
                proof {
                    assert(out@ =~= error_msg(*self));
                }
                out
            },
            Error::SerdeJson(m) => {
                let mut out = String::from_str("serde_json error: ");
                out.append(m.as_str());
                proof {
                    assert(out@ =~= error_msg(*self));
                }
                out
            },
            Error::Unauthorized(m) => {
                let mut out = String::from_str("401 Unauthorized: ");
                out.append(m.as_str());
                proof {
                    assert(out@ =~= error_msg(*self));
                }
                out
            },
            Error::Custom(m) => m.clone(),
        }
    }
}

} // verus!
