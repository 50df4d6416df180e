//! The lifecycle of the embedded proxy server: at most one bound instance.
use vstd::prelude::*;
use vstd::string::*;
use actix_web::dev::ServerHandle;
use crate::error::ProxyError;
use crate::text::{decimal, decimal_text};

verus! {

#[verifier::external_type_specification]
#[verifier::external_body]
pub struct ExServerHandle(ServerHandle);

/// The port used when none is given.
pub const DEFAULT_PORT: u16 = 8080;

/// The port to bind: the given one, else the default.
pub fn target_port(port: Option<u16>) -> (r: u16)
    ensures
        r == match port {
            Some(p) => p,
            None => DEFAULT_PORT,
        },
{
    match port {
        Some(p) => p,
        None => DEFAULT_PORT,
    }
}

/// The local address the server binds.
pub open spec fn bind_address_of(port: u16) -> Seq<char> {
    "127.0.0.1:"@ + decimal(port as nat)
}

pub fn bind_address(port: u16) -> (r: String)
    ensures
        r@ == bind_address_of(port),
{
    let digits = decimal_text(port as u64);
    String::from_str("127.0.0.1:").concat(digits.as_str())
}

/// The error for a port that could not be bound.
pub fn bind_error(port: u16, cause: String) -> (r: ProxyError)
    ensures
        r == (ProxyError::Bind { port, cause }),
{
    ProxyError::Bind { port, cause }
}

/// The running server, if any: its handle and the port it is bound to.
/// Either both are present or neither.
pub struct ProxyState {
    server_handle: Option<ServerHandle>,
    bound_port: Option<u16>,
}

/// `after` is `before` with its server taken out, and `r` is that server.
pub open spec fn took_running(before: ProxyState, after: ProxyState, r: Option<ServerHandle>) -> bool {
    &&& after.wf()
    &&& after.bound() is None
    &&& r == before.handle()
    &&& r is Some <==> before.bound() is Some
}

/// `after` records the server `handle`, bound to `port`.
pub open spec fn recorded(after: ProxyState, handle: ServerHandle, port: u16) -> bool {
    &&& after.wf()
    &&& after.bound() == Some(port)
    &&& after.handle() == Some(handle)
}

impl ProxyState {
    /// The port of the running server, if one runs.
    pub closed spec fn bound(&self) -> Option<u16> {
        self.bound_port
    }

    /// The handle of the running server, if one runs.
    pub closed spec fn handle(&self) -> Option<ServerHandle> {
        self.server_handle
    }

    /// The handle is present exactly when a port is bound.
    pub closed spec fn wf(&self) -> bool {
        self.server_handle is Some <==> self.bound_port is Some
    }

    pub fn new() -> (r: ProxyState)
        ensures
            r.wf(),
            r.bound() is None,
    {
        ProxyState { server_handle: None, bound_port: None }
    }

    /// The port of the running server, if one runs.
    pub fn bound_port(&self) -> (r: Option<u16>)
        ensures
            r == self.bound(),
    {
        self.bound_port
    }

    /// Takes out the running server's handle, so that the caller can stop
    /// it before anything is bound anew. No server is left recorded.
    pub fn take_running(&mut self) -> (r: Option<ServerHandle>)
        requires
            old(self).wf(),
        ensures
            took_running(*old(self), *final(self), r),
    {
        self.bound_port = None;
        let mut h = None;
        std::mem::swap(&mut h, &mut self.server_handle);
        h
    }

    /// Records a server that was bound to `port`. Nothing may be recorded
    /// yet: the caller takes out the previous one first.
    pub fn record_bound(&mut self, handle: ServerHandle, port: u16)
        requires
            old(self).wf(),
            old(self).bound() is None,
        ensures
            recorded(*final(self), handle, port),
    {
        self.server_handle = Some(handle);
        self.bound_port = Some(port);
    }
}

} // verus!
