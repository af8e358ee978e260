//! The part of the request middleware that is arithmetic: what the
//! server-time header says.

use crate::text::{decimal, decimal_text};
use vstd::prelude::*;
use vstd::string::StringExecFns;

verus! {

/// The header that names a request.
pub fn request_id_header() -> (name: &'static str)
    ensures
        name@ == "x-request-id"@,
{
    "x-request-id"
}

/// The header that says how long the server took.
pub fn server_time_header() -> (name: &'static str)
    ensures
        name@ == "x-server-time"@,
{
    "x-server-time"
}

/// The layer that times requests.
#[derive(Debug, Clone, Copy)]
pub struct ServerTime;

/// A service wrapped by [`ServerTime`]: it answers as `inner` does, and
/// says in a header how long `inner` took.
#[derive(Debug, Clone)]
pub struct ServerTimeMiddleWare<S> {
    pub inner: S,
}

impl ServerTime {
    /// Wraps a service.
    pub fn layer<S>(&self, inner: S) -> (wrapped: ServerTimeMiddleWare<S>)
        ensures
            wrapped.inner == inner,
    {
        ServerTimeMiddleWare { inner }
    }
}

/// The value of the server-time header for a request that took `micros`
/// microseconds: the number, then `us`.
pub fn server_time_value(micros: u128) -> (value: String)
    ensures
        value@ == decimal(micros as nat) + "us"@,
{
    decimal_text(micros).concat("us")
}

} // verus!
