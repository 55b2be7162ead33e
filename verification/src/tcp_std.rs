//! Blocking sockets over the modem's TCP and TLS engines: errors, socket
//! handles, and what a non-blocking receive reports.

use vstd::prelude::*;
use crate::{ModemError, Transport};

verus! {

/// Default idle timeout of a blocking read before it reports end of file.
pub const DEFAULT_READ_TIMEOUT_MS: u64 = 30_000;

/// Pause between two read attempts of a blocking read.
pub const READ_POLL_INTERVAL_MS: u64 = 100;

/// Error of the blocking modem sockets.
#[derive(Clone, Copy, Debug, PartialEq, Eq, Structural)]
pub enum SocketError {
    /// The peer closed the connection.
    Closed,
    /// An underlying driver error.
    Modem(ModemError),
}

impl From<ModemError> for SocketError {
    fn from(e: ModemError) -> (r: Self) {
        SocketError::Modem(e)
    }
}

impl vstd::std_specs::convert::FromSpecImpl<ModemError> for SocketError {
    open spec fn obeys_from_spec() -> bool {
        true
    }

    open spec fn from_spec(v: ModemError) -> Self {
        SocketError::Modem(v)
    }
}

/// A socket handle of the blocking network stack: its transport and, once
/// connected, its client id.
#[derive(Clone, Copy, Debug, PartialEq, Eq, Structural)]
pub struct QuectelSocket {
    client_id: Option<u8>,
    transport: Transport,
}

/// What a non-blocking receive reports.
#[derive(Clone, Copy, Debug, PartialEq, Eq, Structural)]
pub enum ReceiveOutcome {
    /// This many bytes were read.
    Data(usize),
    /// Nothing buffered now: try again.
    WouldBlock,
    /// The receive failed.
    Failed(SocketError),
}

impl QuectelSocket {
    /// The client id, once connected.
    pub closed spec fn id(&self) -> Option<u8> {
        self.client_id
    }

    /// The transport of the socket.
    pub closed spec fn spec_transport(&self) -> Transport {
        self.transport
    }

    /// A socket that is not connected yet.
    pub fn new(transport: Transport) -> (s: Self)
        ensures
            s.id() is None,
            s.spec_transport() == transport,
    {
        QuectelSocket { client_id: None, transport }
    }

    /// Record the client id the socket was connected with.
    pub fn set_connected(&mut self, client_id: u8)
        ensures
            final(self).id() == Some(client_id),
            final(self).spec_transport() == old(self).spec_transport(),
    {
        self.client_id = Some(client_id);
    }

    /// The client id, once connected.
    pub fn client_id(&self) -> (id: Option<u8>)
        ensures
            id == self.id(),
    {
        self.client_id
    }

    /// The transport of the socket.
    pub fn transport(&self) -> (t: Transport)
        ensures
            t == self.spec_transport(),
    {
        self.transport
    }

    /// The id to send on: an unconnected socket fails with
    /// `SocketSendFailed`.
    pub fn send_id(&self) -> (r: Result<u8, SocketError>)
        ensures
            match self.id() {
                Some(id) => r == Ok::<u8, SocketError>(id),
                None => r == Err::<u8, SocketError>(SocketError::Modem(ModemError::SocketSendFailed)),
            },
    {
        match self.client_id {
            Some(id) => Ok(id),
            None => Err(SocketError::Modem(ModemError::SocketSendFailed)),
        }
    }

    /// The id to receive on: an unconnected socket fails with
    /// `SocketRecvFailed`.
    pub fn recv_id(&self) -> (r: Result<u8, SocketError>)
        ensures
            match self.id() {
                Some(id) => r == Ok::<u8, SocketError>(id),
                None => r == Err::<u8, SocketError>(SocketError::Modem(ModemError::SocketRecvFailed)),
            },
    {
        match self.client_id {
            Some(id) => Ok(id),
            None => Err(SocketError::Modem(ModemError::SocketRecvFailed)),
        }
    }
}

/// What a non-blocking receive reports after reading `n` bytes, with
/// `peer_closed` telling whether a peer close was seen (only asked when
/// nothing was read): data, a closed socket, or "try again".
pub open spec fn receive_outcome(n: nat, peer_closed: bool) -> ReceiveOutcome {
    if n > 0 {
        ReceiveOutcome::Data(n as usize)
    } else if peer_closed {
        ReceiveOutcome::Failed(SocketError::Closed)
    } else {
        ReceiveOutcome::WouldBlock
    }
}

/// The report of a non-blocking receive.
pub fn receive_result(n: usize, peer_closed: bool) -> (r: ReceiveOutcome)
    ensures
        r == receive_outcome(n as nat, peer_closed),
{
    if n > 0 {
        ReceiveOutcome::Data(n)
    } else if peer_closed {
        ReceiveOutcome::Failed(SocketError::Closed)
    } else {
        ReceiveOutcome::WouldBlock
    }
}

/// A non-blocking receive reports data whenever some was read; with none,
/// a peer close reports the socket closed, and otherwise it asks to try
/// again.
pub proof fn law_receive_outcome(n: nat, peer_closed: bool)
    ensures
        n > 0 ==> receive_outcome(n, peer_closed) == ReceiveOutcome::Data(n as usize),
        receive_outcome(n, peer_closed) == ReceiveOutcome::Failed(SocketError::Closed) <==> (n == 0
            && peer_closed),
        receive_outcome(n, peer_closed) == ReceiveOutcome::WouldBlock <==> (n == 0 && !peer_closed),
{
}

} // verus!
