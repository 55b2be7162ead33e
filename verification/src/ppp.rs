//! The PPP data path: a writer that can be taken back from the AT client
//! once the modem is dialed, and the read and write halves combined again
//! into one transport.

use vstd::prelude::*;

verus! {

/// Wraps a writer so that it can be taken back out once AT-command use of
/// it is done.
pub struct Reclaimable<W> {
    inner: Option<W>,
}

impl<W> Reclaimable<W> {
    /// The writer held, if it has not been taken.
    pub closed spec fn held(&self) -> Option<W> {
        self.inner
    }

    /// Wrap `inner` for later reclamation.
    pub fn new(inner: W) -> (r: Self)
        ensures
            r.held() == Some(inner),
    {
        Self { inner: Some(inner) }
    }

    /// Whether the writer is still held (not taken).
    pub fn is_held(&self) -> (b: bool)
        ensures
            b == self.held() is Some,
    {
        self.inner.is_some()
    }

    /// Take the wrapped writer back out. It must not have been taken.
    pub fn take(&mut self) -> (w: W)
        requires
            old(self).held() is Some,
        ensures
            w == old(self).held().unwrap(),
            final(self).held() is None,
    {
        match self.inner.take() {
            Some(w) => w,
            None => vstd::pervasive::unreached(),
        }
    }

    /// Put a writer (back) in, for the next AT session.
    pub fn put(&mut self, inner: W)
        ensures
            final(self).held() == Some(inner),
    {
        self.inner = Some(inner);
    }

    /// The writer, to send through. It must not have been taken.
    pub fn inner_mut(&mut self) -> (w: &mut W)
        requires
            old(self).held() is Some,
        ensures
            *w == old(self).held().unwrap(),
            final(self).held() == Some(*final(w)),
    {
        match &mut self.inner {
            Some(w) => w,
            None => vstd::pervasive::unreached(),
        }
    }

    /// The writer held, giving up the wrapper.
    pub fn into_inner(self) -> (w: Option<W>)
        ensures
            w == self.held(),
    {
        self.inner
    }
}

/// A read half and a write half combined into one transport.
pub struct Duplex<R, W> {
    r: R,
    w: W,
}

impl<R, W> Duplex<R, W> {
    /// The read half.
    pub closed spec fn reader(&self) -> R {
        self.r
    }

    /// The write half.
    pub closed spec fn writer(&self) -> W {
        self.w
    }

    /// Combine the two halves.
    pub fn new(r: R, w: W) -> (d: Self)
        ensures
            d.reader() == r,
            d.writer() == w,
    {
        Self { r, w }
    }

    /// The two halves again.
    pub fn into_parts(self) -> (p: (R, W))
        ensures
            p.0 == self.reader(),
            p.1 == self.writer(),
    {
        (self.r, self.w)
    }
}

/// The IPv4 settings negotiated over PPP (IPCP): our address, the peer's
/// address and up to two DNS servers, as octets.
#[derive(Clone, Copy, Debug)]
pub struct PppIpv4Status {
    pub address: Option<[u8; 4]>,
    pub peer_address: Option<[u8; 4]>,
    pub dns_servers: [Option<[u8; 4]>; 2],
}

/// Static IPv4 settings for the network stack.
#[derive(Clone, Debug)]
pub struct StaticIpv4Config {
    pub address: [u8; 4],
    pub prefix_len: u8,
    pub gateway: Option<[u8; 4]>,
    pub dns_servers: Vec<[u8; 4]>,
}

/// The DNS servers of a status that are present, in order.
pub open spec fn present_dns(first: Option<[u8; 4]>, second: Option<[u8; 4]>) -> Seq<[u8; 4]> {
    match (first, second) {
        (Some(a), Some(b)) => seq![a, b],
        (Some(a), None) => seq![a],
        (None, Some(b)) => seq![b],
        (None, None) => seq![],
    }
}

/// The stack settings of a negotiated PPP link: our address as a `/32`
/// (the link is point to point), the peer as the gateway, and the DNS
/// servers given; `None` when no address was negotiated.
pub fn ppp_ipv4_to_stack_config(status: &PppIpv4Status) -> (c: Option<StaticIpv4Config>)
    ensures
        match status.address {
            None => c is None,
            Some(a) => (c matches Some(cfg) && cfg.address == a && cfg.prefix_len == 32
                && cfg.gateway == status.peer_address && cfg.dns_servers@ == present_dns(
                status.dns_servers[0],
                status.dns_servers[1],
            )),
        },
{
    let address = match status.address {
        Some(a) => a,
        None => return None,
    };
    let mut dns_servers: Vec<[u8; 4]> = Vec::new();
    let first = status.dns_servers[0];
    let second = status.dns_servers[1];
    if let Some(d) = first {
        dns_servers.push(d);
    }
    if let Some(d) = second {
        dns_servers.push(d);
    }
    proof {
        assert(dns_servers@ =~= present_dns(first, second));
    }
    Some(
        StaticIpv4Config { address, prefix_len: 32, gateway: status.peer_address, dns_servers },
    )
}

} // verus!
