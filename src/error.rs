//! The errors of the forwarding engine and the messages they carry.
use vstd::prelude::*;
use vstd::string::*;
use crate::text::{decimal, decimal_text};

verus! {

/// Why a forwarding, listing or server call failed.
#[derive(Clone, Debug, PartialEq, Eq)]
pub enum ProxyError {
    /// The request could not be sent, or timed out.
    Transport(String),
    /// The upstream answered with a status outside 2xx.
    Upstream { status: u16, body: String },
    /// The upstream body was not the JSON expected.
    Decode(String),
    /// The endpoint does not parse as a URL, or has no host.
    InvalidEndpoint(String),
    /// The embedded server could not bind its port.
    Bind { port: u16, cause: String },
    /// A lock on shared state was poisoned.
    Lock(String),
}

/// The descriptive message of an error.
pub open spec fn error_message(e: ProxyError) -> Seq<char> {
    match e {
        ProxyError::Transport(m) => "Request failed: "@ + m@,
        ProxyError::Upstream { status, body } => "API error: "@ + decimal(status as nat) + " - "@
            + body@,
        ProxyError::Decode(m) => "Failed to parse response: "@ + m@,
        ProxyError::InvalidEndpoint(m) => "Invalid API endpoint URL: "@ + m@,
        ProxyError::Bind { port, cause } => "Failed to bind HTTP server to port "@ + decimal(
            port as nat,
        ) + ": "@ + cause@,
        ProxyError::Lock(m) => "Lock error: "@ + m@,
    }
}

impl ProxyError {
    /// The descriptive message handed back to callers.
    pub fn message(&self) -> (r: String)
        ensures
            r@ == error_message(*self),
    {
        match self {
            ProxyError::Transport(m) => String::from_str("Request failed: ").concat(m.as_str()),
            ProxyError::Upstream { status, body } => {
                let code = decimal_text(*status as u64);
                String::from_str("API error: ").concat(code.as_str()).concat(" - ").concat(
                    body.as_str(),
                )
            },
            ProxyError::Decode(m) => String::from_str("Failed to parse response: ").concat(
                m.as_str(),
            ),
            ProxyError::InvalidEndpoint(m) => String::from_str("Invalid API endpoint URL: ").concat(
                m.as_str(),
            ),
            ProxyError::Bind { port, cause } => {
                let p = decimal_text(*port as u64);
                String::from_str("Failed to bind HTTP server to port ").concat(p.as_str()).concat(
                    ": ",
                ).concat(cause.as_str())
            },
            ProxyError::Lock(m) => String::from_str("Lock error: ").concat(m.as_str()),
        }
    }
}

/// The body `{ "error": ... }` of a failed call.
#[derive(Clone, Debug)]
pub struct StreamError {
    pub error: String,
}

impl StreamError {
    pub fn new(error: String) -> (r: StreamError)
        ensures
            r.error@ == error@,
    {
        StreamError { error }
    }

    /// The body that reports `e`.
    pub fn from_error(e: &ProxyError) -> (r: StreamError)
        ensures
            r.error@ == error_message(*e),
    {
        StreamError { error: e.message() }
    }
}

} // verus!
