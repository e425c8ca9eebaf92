//! The client side of the SOCKS5 handshake (RFC 1928, no-auth, CONNECT only)
//! as a state machine: the caller reads the bytes each state asks for, hands
//! them to `handshake_step`, and writes back the reply it returns.

use vstd::prelude::*;

use crate::text::{decode_utf8_lossy, dotted_quad, ipv4_text, ipv6_text, ipv6_text_of, utf8_lossy};

verus! {

/// Why a client handshake was refused.
#[derive(Debug, Clone, Copy, PartialEq, Eq, Structural)]
pub enum HandshakeError {
    /// The greeting's version byte is not 5.
    NotSocks5,
    /// The request's command is not CONNECT (1).
    OnlyConnect,
    /// The request's address type is none of 1, 3 and 4.
    BadAddressType,
}

/// A parsed CONNECT request.
#[derive(Debug, Clone)]
pub struct ConnectRequest {
    /// The address type: 1 (IPv4), 3 (domain name) or 4 (IPv6).
    pub atyp: u8,
    /// The raw address bytes: 4 for IPv4, the name for a domain, 16 for IPv6.
    pub addr: Vec<u8>,
    /// The target port.
    pub port: u16,
}

/// Where a client handshake stands.
#[derive(Debug, Clone)]
pub enum HandshakeState {
    /// Waiting for `VER NMETHODS`.
    AwaitGreeting,
    /// Waiting for the `count` method bytes, which are discarded.
    AwaitMethods { count: u8 },
    /// Waiting for `VER CMD RSV ATYP`.
    AwaitRequest,
    /// Waiting for the length byte of a domain name.
    AwaitDomainLen,
    /// Waiting for `len` address bytes and two port bytes.
    AwaitAddress { atyp: u8, len: usize },
    /// The request is parsed; an upstream can be selected.
    Ready(ConnectRequest),
    /// The handshake failed; the connection is to be closed.
    Closed(HandshakeError),
}

/// The outcome of one handshake step.
pub struct Step {
    /// The state after the step.
    pub state: HandshakeState,
    /// Bytes to write to the client before reading on.
    pub reply: Vec<u8>,
}

/// A big-endian 16-bit value.
pub open spec fn be16(hi: u8, lo: u8) -> u16 {
    (hi as int * 256 + lo as int) as u16
}

/// The reply that selects the no-authentication method.
pub open spec fn no_auth_reply() -> Seq<u8> {
    seq![5u8, 0u8]
}

/// The reply to a CONNECT request with status `rep`; the bound address is
/// always IPv4 zeros with port zero.
pub open spec fn connect_reply(rep: u8) -> Seq<u8> {
    seq![5u8, rep, 0u8, 1u8, 0u8, 0u8, 0u8, 0u8, 0u8, 0u8]
}

impl HandshakeState {
    /// The handshake at its start.
    pub fn new() -> (r: HandshakeState)
        ensures
            r is AwaitGreeting,
    {
        HandshakeState::AwaitGreeting
    }

    /// Whether the handshake has ended, parsed or failed.
    pub open spec fn is_final(&self) -> bool {
        self is Ready || self is Closed
    }

    /// How many bytes the state reads next.
    pub open spec fn wanted(&self) -> int {
        match self {
            HandshakeState::AwaitGreeting => 2,
            HandshakeState::AwaitMethods { count } => *count as int,
            HandshakeState::AwaitRequest => 4,
            HandshakeState::AwaitDomainLen => 1,
            HandshakeState::AwaitAddress { len, .. } => *len as int + 2,
            _ => 0,
        }
    }

    /// How many bytes the state reads next; zero once the handshake ended.
    pub fn want(&self) -> (r: usize)
        requires
            self.wanted() <= usize::MAX,
        ensures
            r as int == self.wanted(),
    {
        match self {
            HandshakeState::AwaitGreeting => 2,
            HandshakeState::AwaitMethods { count } => *count as usize,
            HandshakeState::AwaitRequest => 4,
            HandshakeState::AwaitDomainLen => 1,
            HandshakeState::AwaitAddress { len, .. } => *len + 2,
            _ => 0,
        }
    }
}

/// The states a handshake reaches: an awaited address whose length fits
/// its type.
pub open spec fn reachable(s: HandshakeState) -> bool {
    s matches HandshakeState::AwaitAddress { atyp, len } ==> len <= 255 && ((atyp == 1 && len == 4) || (
    atyp == 4 && len == 16) || atyp == 3)
}

/// Advances the handshake by the `input` that `state` asked for.
pub fn handshake_step(state: &HandshakeState, input: &[u8]) -> (r: Step)
    requires
        !state.is_final(),
        reachable(*state),
        input@.len() == state.wanted(),
    ensures
        reachable(r.state),
        r.state matches HandshakeState::Ready(req) ==> req.wf(),
        match *state {
            HandshakeState::AwaitGreeting => if input@[0] != 5 {
                r.state == HandshakeState::Closed(HandshakeError::NotSocks5) && r.reply@ == Seq::<u8>::empty()
            } else {
                r.state == (HandshakeState::AwaitMethods { count: input@[1] }) && r.reply@ == Seq::<u8>::empty()
            },
            HandshakeState::AwaitMethods { .. } => r.state is AwaitRequest && r.reply@ == no_auth_reply(),
            HandshakeState::AwaitRequest => r.reply@ == Seq::<u8>::empty() && if input@[1] != 1 {
                r.state == HandshakeState::Closed(HandshakeError::OnlyConnect)
            } else if input@[3] == 1 {
                r.state == (HandshakeState::AwaitAddress { atyp: 1, len: 4 })
            } else if input@[3] == 3 {
                r.state is AwaitDomainLen
            } else if input@[3] == 4 {
                r.state == (HandshakeState::AwaitAddress { atyp: 4, len: 16 })
            } else {
                r.state == HandshakeState::Closed(HandshakeError::BadAddressType)
            },
            HandshakeState::AwaitDomainLen => r.reply@ == Seq::<u8>::empty() && r.state == (
            HandshakeState::AwaitAddress { atyp: 3, len: input@[0] as usize }),
            HandshakeState::AwaitAddress { atyp, len } => r.reply@ == Seq::<u8>::empty() && (
            r.state matches HandshakeState::Ready(req) && req.atyp == atyp && req.addr@
                == input@.subrange(0, len as int) && req.port == be16(input@[len as int], input@[len + 1])),
            _ => false,
        },
{
    match state {
        HandshakeState::AwaitGreeting => {
            if input[0] != 5 {
                Step { state: HandshakeState::Closed(HandshakeError::NotSocks5), reply: Vec::new() }
            } else {
                Step { state: HandshakeState::AwaitMethods { count: input[1] }, reply: Vec::new() }
            }
        },
        HandshakeState::AwaitMethods { .. } => {
            let reply = vec![5u8, 0u8];
            assert(reply@ =~= no_auth_reply());
            Step { state: HandshakeState::AwaitRequest, reply }
        },
        HandshakeState::AwaitRequest => {
            let next = if input[1] != 1 {
                HandshakeState::Closed(HandshakeError::OnlyConnect)
            } else if input[3] == 1 {
                HandshakeState::AwaitAddress { atyp: 1, len: 4 }
            } else if input[3] == 3 {
                HandshakeState::AwaitDomainLen
            } else if input[3] == 4 {
                HandshakeState::AwaitAddress { atyp: 4, len: 16 }
            } else {
                HandshakeState::Closed(HandshakeError::BadAddressType)
            };
            Step { state: next, reply: Vec::new() }
        },
        HandshakeState::AwaitDomainLen => {
            Step { state: HandshakeState::AwaitAddress { atyp: 3, len: input[0] as usize }, reply: Vec::new() }
        },
        HandshakeState::AwaitAddress { atyp, len } => {
            let n = *len;
            let mut addr: Vec<u8> = Vec::new();
            let mut i: usize = 0;
            while i < n
                invariant
                    i <= n,
                    n + 2 == input@.len(),
                    addr@ == input@.subrange(0, i as int),
                decreases n - i,
            {
                addr.push(input[i]);
                i = i + 1;
                assert(addr@ =~= input@.subrange(0, i as int));
            }
            let port = (input[n] as u16) * 256 + input[n + 1] as u16;
            let req = ConnectRequest { atyp: *atyp, addr, port };
            Step { state: HandshakeState::Ready(req), reply: Vec::new() }
        },
        _ => {
            Step { state: HandshakeState::Closed(HandshakeError::NotSocks5), reply: Vec::new() }
        },
    }
}

/// The textual host of a request: dotted decimal for IPv4, the name decoded
/// as UTF-8 (invalid sequences replaced) for a domain, the standard textual
/// form for IPv6.
pub open spec fn request_host(atyp: u8, addr: Seq<u8>) -> Seq<char> {
    if atyp == 1 {
        dotted_quad(addr)
    } else if atyp == 3 {
        utf8_lossy(addr)
    } else {
        ipv6_text_of(addr)
    }
}

impl ConnectRequest {
    /// The well-formed requests: an address length that fits the type.
    pub open spec fn wf(&self) -> bool {
        &&& (self.atyp == 1 ==> self.addr@.len() == 4)
        &&& (self.atyp == 4 ==> self.addr@.len() == 16)
        &&& (self.atyp == 1 || self.atyp == 3 || self.atyp == 4)
    }

    /// The textual target host of this request.
    pub fn host_text(&self) -> (r: String)
        requires
            self.wf(),
        ensures
            r@ == request_host(self.atyp, self.addr@),
    {
        if self.atyp == 1 {
            ipv4_text(self.addr.as_slice())
        } else if self.atyp == 3 {
            decode_utf8_lossy(self.addr.as_slice())
        } else {
            ipv6_text(self.addr.as_slice())
        }
    }
}

/// The reply to a CONNECT request when the upstream tunnel is open.
pub fn success_reply() -> (r: Vec<u8>)
    ensures
        r@ == connect_reply(0),
{
    let r = vec![5u8, 0u8, 0u8, 1u8, 0u8, 0u8, 0u8, 0u8, 0u8, 0u8];
    assert(r@ =~= connect_reply(0));
    r
}

/// The reply to a CONNECT request that fails with a general failure: no
/// live upstream, or the upstream could not be reached.
pub fn failure_reply() -> (r: Vec<u8>)
    ensures
        r@ == connect_reply(4),
{
    let r = vec![5u8, 4u8, 0u8, 1u8, 0u8, 0u8, 0u8, 0u8, 0u8, 0u8];
    assert(r@ =~= connect_reply(4));
    r
}

} // verus!
