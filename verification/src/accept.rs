//! The host's accept path: one connection, from one address, or nothing.

use vstd::prelude::*;

use crate::addr::{plain, unmap, IpAddr, SocketAddr};

verus! {

/// How long the host waits for its one client before giving up, in seconds.
/// It bounds the whole wait, and not one arrival: else every stranger's packet
/// would start it again.
pub const ACCEPT_TIMEOUT: u64 = 30;

/// What is done with an incoming connection.
#[derive(Clone, Copy, PartialEq, Eq, Debug, Structural)]
pub enum Admission {
    /// Drop it in silence. A refusal would tell a port scanner that something
    /// is listening.
    Ignore,
    /// Ask it to prove its address. If that cannot be sent, drop it in
    /// silence.
    Retry,
    /// Complete the handshake.
    Handshake,
}

/// What is done with an incoming connection from `remote` when `nominated` is
/// the peer this attach talks to.
pub open spec fn admission(
    remote: SocketAddr,
    validated: bool,
    nominated: SocketAddr,
) -> Admission {
    if plain(remote) != plain(nominated) {
        Admission::Ignore
    } else if !validated {
        Admission::Retry
    } else {
        Admission::Handshake
    }
}

/// What is done with an incoming connection. Both addresses are brought to
/// plain form: a dual-stack endpoint reports an IPv4 peer as an IPv4-mapped
/// one, and comparing that would reject the very peer that was agreed on.
pub fn screen_incoming(remote: SocketAddr, validated: bool, nominated: SocketAddr) -> (a: Admission)
    ensures
        a == admission(remote, validated, nominated),
{
    if unmap(remote) != unmap(nominated) {
        return Admission::Ignore;
    }
    if !validated {
        return Admission::Retry;
    }
    Admission::Handshake
}

/// How the wait for the client ended.
#[derive(Debug)]
pub enum AcceptEnd<C> {
    Connected(C),
    /// A peer arrived from the nominated address and failed the handshake, for
    /// this reason. Nothing was admitted.
    PeerFailed(String),
    /// The endpoint is gone. Nothing will ever arrive on it again.
    EndpointClosed,
    /// The deadline passed.
    TimedOut,
}

/// A failed accept, and, when the attach still has its one connection left to
/// spend, the permit to try again.
#[derive(Debug)]
pub struct AcceptFailed<P> {
    /// What is said of it.
    pub error: String,
    /// What was underneath, where there was something.
    pub cause: Option<String>,
    /// There only when a peer reached the handshake and failed it.
    pub permit: Option<P>,
}

impl<P> AcceptFailed<P> {
    /// The unspent permit, if this failure left one. The error and the permit
    /// cannot both be kept.
    pub fn retry(self) -> (permit: Option<P>)
        ensures
            permit == self.permit,
    {
        self.permit
    }
}

/// What is said of a wait for `nominated` that ended without a connection.
pub open spec fn accept_error<C>(end: AcceptEnd<C>, nominated: Seq<char>) -> Seq<char> {
    match end {
        AcceptEnd::PeerFailed(_) => "completing the QUIC handshake with the nominated peer"@,
        AcceptEnd::EndpointClosed => "the QUIC endpoint closed before the client connected"@,
        _ => "no client completed a QUIC handshake from "@ + nominated + " within 30s"@,
    }
}

/// Whether the wait for `nominated` that ended so comes to `r`.
pub open spec fn accepted<P, C>(
    permit: P,
    end: AcceptEnd<C>,
    nominated: Seq<char>,
    r: Result<C, AcceptFailed<P>>,
) -> bool {
    match r {
        Ok(c) => end == AcceptEnd::Connected(c),
        Err(f) => {
            &&& !(end is Connected)
            &&& f.error@ == accept_error(end, nominated)
            &&& f.permit == (if end is PeerFailed {
                Some(permit)
            } else {
                None
            })
            &&& f.cause == (match end {
                AcceptEnd::PeerFailed(why) => Some(why),
                _ => None,
            })
        },
    }
}

/// Spend the permit on the one connection this attach expects. `nominated` is
/// the peer's address as text.
///
/// The permit comes back when, and only when, a peer reached the handshake and
/// failed it: nothing was admitted then, so the one connection is unspent. In
/// no other failure is there anything left to wait for.
pub fn accept_one<P, C>(permit: P, end: AcceptEnd<C>, nominated: &str) -> (r: Result<
    C,
    AcceptFailed<P>,
>)
    ensures
        match r {
            Ok(c) => end == AcceptEnd::Connected(c),
            Err(f) => {
                &&& !(end is Connected)
                &&& f.error@ == accept_error(end, nominated@)
                &&& f.permit == (if end is PeerFailed {
                    Some(permit)
                } else {
                    None
                })
                &&& f.cause == (match end {
                    AcceptEnd::PeerFailed(why) => Some(why),
                    _ => None,
                })
            },
        },
        accepted(permit, end, nominated@, r),
{
    match end {
        AcceptEnd::Connected(c) => Ok(c),
        AcceptEnd::PeerFailed(why) => Err(
            AcceptFailed {
                error: "completing the QUIC handshake with the nominated peer".to_owned(),
                cause: Some(why),
                permit: Some(permit),
            },
        ),
        AcceptEnd::EndpointClosed => Err(
            AcceptFailed {
                error: "the QUIC endpoint closed before the client connected".to_owned(),
                cause: None,
                permit: None,
            },
        ),
        AcceptEnd::TimedOut => {
            let mut error = "no client completed a QUIC handshake from ".to_owned();
            error.append(nominated);
            error.append(" within 30s");
            Err(AcceptFailed { error, cause: None, permit: None })
        },
    }
}

/// Only the nominated peer, in whichever form its address is reported, and
/// only from an address it has proved, reaches the handshake.
pub proof fn only_the_nominated_peer_is_admitted(
    remote: SocketAddr,
    validated: bool,
    nominated: SocketAddr,
)
    ensures
        admission(remote, validated, nominated) == Admission::Handshake <==> validated && plain(
            remote,
        ) == plain(nominated),
        admission(plain(remote), validated, nominated) == admission(remote, validated, nominated),
{
}

/// A connection is completed exactly if it comes from the nominated port and
/// address and has proved that address; from there without proof it is asked
/// for one, and from anywhere else it is dropped in silence. An IPv4 peer is the
/// same peer in the form a dual-stack endpoint reports it in.
pub proof fn strangers_are_dropped_in_silence(
    ip: u32,
    port: u16,
    from: u32,
    from_port: u16,
    validated: bool,
)
    ensures
        ({
            let nominated = SocketAddr { ip: IpAddr::V4(ip), port, flow_info: 0, scope_id: 0 };
            let plainly = SocketAddr {
                ip: IpAddr::V4(from),
                port: from_port,
                flow_info: 0,
                scope_id: 0,
            };
            let mapped = SocketAddr {
                ip: IpAddr::V6((0xffff_0000_0000 + from) as u128),
                port: from_port,
                flow_info: 0,
                scope_id: 0,
            };
            let known = from == ip && from_port == port;
            &&& admission(plainly, validated, nominated) == Admission::Handshake <==> known
                && validated
            &&& admission(plainly, validated, nominated) == Admission::Retry <==> known
                && !validated
            &&& admission(plainly, validated, nominated) == Admission::Ignore <==> !known
            &&& admission(mapped, validated, nominated) == admission(plainly, validated, nominated)
            &&& admission(plainly, validated, mapped) == (if validated {
                Admission::Handshake
            } else {
                Admission::Retry
            })
        }),
{
    assert((0xffff_0000_0000 + from) / 0x1_0000_0000 == 0xffff);
    assert((0xffff_0000_0000 + from) % 0x1_0000_0000 == from);
}

/// An IPv6 peer is told apart by all of its address and its port.
pub proof fn an_ipv6_peer_is_itself_only(a: SocketAddr, b: SocketAddr, validated: bool)
    requires
        a.ip matches IpAddr::V6(bits) && bits / 0x1_0000_0000 != 0xffff,
        b.ip matches IpAddr::V6(bits) && bits / 0x1_0000_0000 != 0xffff,
    ensures
        admission(a, validated, b) == Admission::Ignore <==> a != b,
        admission(a, validated, b) == Admission::Handshake <==> a == b && validated,
{
}

/// The wait for a client comes to its connection exactly if there was one.
/// Every other end says why, and gives the permit back only if a peer reached
/// the handshake and failed it, with that peer's reason.
pub proof fn a_permit_is_spent_once<P, C>(
    permit: P,
    end: AcceptEnd<C>,
    nominated: Seq<char>,
    r: Result<C, AcceptFailed<P>>,
)
    requires
        accepted(permit, end, nominated, r),
    ensures
        r is Ok <==> end is Connected,
        end matches AcceptEnd::Connected(c) ==> r == Ok::<C, AcceptFailed<P>>(c),
        end matches AcceptEnd::PeerFailed(why) ==> {
            &&& r matches Err(f)
            &&& f.permit == Some(permit)
            &&& f.cause == Some(why)
            &&& f.error@ == "completing the QUIC handshake with the nominated peer"@
        },
        end is EndpointClosed ==> {
            &&& r matches Err(f)
            &&& f.permit is None
            &&& f.cause is None
            &&& f.error@ == "the QUIC endpoint closed before the client connected"@
        },
        end is TimedOut ==> {
            &&& r matches Err(f)
            &&& f.permit is None
            &&& f.cause is None
            &&& f.error@ == "no client completed a QUIC handshake from "@ + nominated
                + " within 30s"@
        },
{
}

} // verus!
