//! Asynchronous sockets over the modem's TCP and TLS engines.

use vstd::prelude::*;
use crate::ModemError;

verus! {

/// Error of the asynchronous modem sockets: a driver error.
#[derive(Clone, Copy, Debug, PartialEq, Eq, Structural)]
pub struct SocketError(pub ModemError);

impl From<ModemError> for SocketError {
    fn from(e: ModemError) -> (r: Self) {
        SocketError(e)
    }
}

impl vstd::std_specs::convert::FromSpecImpl<ModemError> for SocketError {
    open spec fn obeys_from_spec() -> bool {
        true
    }

    open spec fn from_spec(v: ModemError) -> Self {
        SocketError(v)
    }
}

} // verus!
