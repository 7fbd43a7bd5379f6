//! Which local address this machine would use to reach the host, and whether
//! it changed.
//!
//! A probe is compared against the previous probe: a baseline taken while the
//! link was known good. Only the address counts, never the port, which is the
//! probe's own.

use vstd::prelude::*;

use crate::addr::{is_mapped, plain, plain_ip, unmap, unmap_ip, IpAddr, SocketAddr};

verus! {

/// How often the route is probed while the host is silent, in milliseconds.
pub const ROUTE_PROBE_EVERY: u64 = 1000;

/// How to ask the kernel which address it would use: bind to one endpoint,
/// connect to the other, and read back the local address. Nothing is sent.
#[derive(Clone, Copy, PartialEq, Eq, Debug, Structural)]
pub struct Probe {
    pub bind: SocketAddr,
    pub connect: SocketAddr,
}

/// The wildcard endpoint of an address's family.
pub open spec fn wildcard_for(ip: IpAddr) -> SocketAddr {
    SocketAddr {
        ip: match ip {
            IpAddr::V4(_) => IpAddr::V4(0),
            IpAddr::V6(_) => IpAddr::V6(0),
        },
        port: 0,
        flow_info: 0,
        scope_id: 0,
    }
}

/// Whether `p` asks which local address the kernel would use to reach `peer`.
pub open spec fn probes_for(peer: SocketAddr, p: Probe) -> bool {
    p.connect == plain(peer) && p.bind == wildcard_for(plain(peer).ip)
}

/// How to ask which local address the kernel would use to reach `peer`. The
/// probe is bound in the peer's own family, so connecting needs no mapping.
pub fn route_probe(peer: SocketAddr) -> (p: Probe)
    ensures
        p.connect == plain(peer),
        p.bind == wildcard_for(plain(peer).ip),
        probes_for(peer, p),
{
    let connect = unmap(peer);
    let ip = match connect.ip {
        IpAddr::V4(_) => IpAddr::V4(0),
        IpAddr::V6(_) => IpAddr::V6(0),
    };
    Probe { bind: SocketAddr { ip, port: 0, flow_info: 0, scope_id: 0 }, connect }
}

/// The source address a probe reported, in plain form.
pub fn route_source(local: SocketAddr) -> (ip: IpAddr)
    ensures
        ip == plain_ip(local.ip),
{
    unmap_ip(local.ip)
}

/// The source address that was true when the link last worked.
pub struct RouteWatch {
    baseline: Option<IpAddr>,
}

/// What an address is worth as a baseline: its plain form, unless that is the
/// wildcard, which says nothing about any route.
pub open spec fn evidence(ip: IpAddr) -> Option<IpAddr> {
    if plain_ip(ip).wildcard() {
        None
    } else {
        Some(plain_ip(ip))
    }
}

/// The baseline after `seen` was adopted over `before`.
pub open spec fn settled(before: Option<IpAddr>, seen: IpAddr) -> Option<IpAddr> {
    if evidence(seen) is Some {
        evidence(seen)
    } else {
        before
    }
}

impl RouteWatch {
    pub closed spec fn spec_baseline(&self) -> Option<IpAddr> {
        self.baseline
    }

    /// A baseline is in plain form and never the wildcard.
    pub open spec fn wf(&self) -> bool {
        self.spec_baseline() matches Some(ip) ==> !ip.wildcard() && !is_mapped(ip)
    }

    /// Whether `seen` says that the route has moved.
    pub open spec fn says_moved(&self, seen: IpAddr) -> bool {
        evidence(seen) is Some && self.spec_baseline() is Some && self.spec_baseline() != evidence(
            seen,
        )
    }

    /// `baseline` is what a probe said while the link was known good. `None`
    /// when no probe has succeeded yet.
    pub fn new(baseline: Option<IpAddr>) -> (w: RouteWatch)
        ensures
            w.wf(),
            w.spec_baseline() == (match baseline {
                Some(ip) => evidence(ip),
                None => None,
            }),
    {
        let kept = match baseline {
            Some(ip) => {
                let ip = unmap_ip(ip);
                if ip.is_unspecified() {
                    None
                } else {
                    Some(ip)
                }
            },
            None => None,
        };
        RouteWatch { baseline: kept }
    }

    /// Whether `seen` says this machine's route to the peer has moved.
    ///
    /// False with no baseline: a rebind on no evidence is strictly worse than
    /// doing nothing, because it costs a punched NAT hole to learn nothing.
    pub fn moved(&self, seen: IpAddr) -> (r: bool)
        requires
            self.wf(),
        ensures
            r == self.says_moved(seen),
    {
        let seen = unmap_ip(seen);
        if seen.is_unspecified() {
            return false;
        }
        match self.baseline {
            Some(base) => base != seen,
            None => false,
        }
    }

    /// Adopt `seen` as the address the link now works from.
    ///
    /// Called after a successful rebind, so one route change asks for one
    /// rebind rather than one per probe.
    pub fn settle(&mut self, seen: IpAddr)
        requires
            old(self).wf(),
        ensures
            final(self).wf(),
            final(self).spec_baseline() == (if evidence(seen) is Some {
                evidence(seen)
            } else {
                old(self).spec_baseline()
            }),
            !final(self).says_moved(seen),
            final(self).spec_baseline() == settled(old(self).spec_baseline(), seen),
    {
        let seen = unmap_ip(seen);
        if !seen.is_unspecified() {
            self.baseline = Some(seen);
        }
    }
}

/// An IPv4-mapped address and its plain form are one and the same address to
/// the watch, as a baseline and as a reading.
pub proof fn a_mapped_address_is_its_plain_form(w: RouteWatch, ip: IpAddr)
    ensures
        evidence(ip) == evidence(plain_ip(ip)),
        w.says_moved(ip) == w.says_moved(plain_ip(ip)),
{
}

/// A route has moved exactly if there is a baseline and what was seen is an
/// address that differs from it. The wildcard is no address, and without a
/// baseline nothing is evidence of anything.
pub proof fn a_route_moves_when_its_address_changes(w: RouteWatch, base: u32, seen: u32, v6: u128)
    ensures
        w.spec_baseline() is None ==> !w.says_moved(IpAddr::V4(seen)) && !w.says_moved(
            IpAddr::V6(v6),
        ),
        !w.says_moved(IpAddr::V4(0)),
        !w.says_moved(IpAddr::V6(0)),
        w.spec_baseline() == Some(IpAddr::V4(base)) && seen != 0 ==> {
            &&& w.says_moved(IpAddr::V4(seen)) <==> seen != base
            &&& w.says_moved(IpAddr::V6((0xffff_0000_0000 + seen) as u128)) <==> seen != base
        },
        w.spec_baseline() == Some(IpAddr::V4(base)) && v6 > 0xffff_ffff_ffff ==> w.says_moved(
            IpAddr::V6(v6),
        ),
        w.spec_baseline() == Some(IpAddr::V6(v6)) && seen != 0 ==> w.says_moved(IpAddr::V4(seen)),
{
    assert((0xffff_0000_0000 + seen) / 0x1_0000_0000 == 0xffff);
    assert((0xffff_0000_0000 + seen) % 0x1_0000_0000 == seen);
}

/// What is kept as a baseline is the address in its plain form, and the wildcard
/// is never kept.
pub proof fn a_baseline_is_an_address(a: u32, v6: u128)
    ensures
        a != 0 ==> evidence(IpAddr::V4(a)) == Some(IpAddr::V4(a)),
        a != 0 ==> evidence(IpAddr::V6((0xffff_0000_0000 + a) as u128)) == Some(IpAddr::V4(a)),
        evidence(IpAddr::V4(0)) is None,
        evidence(IpAddr::V6(0)) is None,
        evidence(IpAddr::V6(0xffff_0000_0000)) is None,
        v6 > 0xffff_ffff_ffff ==> evidence(IpAddr::V6(v6)) == Some(IpAddr::V6(v6)),
{
    assert((0xffff_0000_0000 + a) / 0x1_0000_0000 == 0xffff);
    assert((0xffff_0000_0000 + a) % 0x1_0000_0000 == a);
}

/// A probe asks about the peer itself, at its own port, from the wildcard of the
/// peer's own family at no port in particular.
pub proof fn a_probe_asks_in_the_peers_family(peer: SocketAddr, p: Probe)
    requires
        probes_for(peer, p),
    ensures
        p.connect.port == peer.port,
        p.bind.port == 0,
        peer.ip matches IpAddr::V4(bits) ==> p.connect == peer && p.bind.ip == IpAddr::V4(0),
        peer.ip matches IpAddr::V6(bits) ==> {
            &&& bits > 0xffff_ffff_ffff ==> p.connect == peer && p.bind.ip == IpAddr::V6(0)
            &&& bits == 0xffff_0000_0000 + (bits % 0x1_0000_0000) ==> p.connect.ip == IpAddr::V4(
                (bits % 0x1_0000_0000) as u32,
            ) && p.bind.ip == IpAddr::V4(0)
        },
{
}

/// What the link works from now is what was seen, in its plain form, and a
/// reading that says nothing leaves the baseline alone.
pub proof fn a_baseline_follows_what_was_seen(before: Option<IpAddr>, a: u32, v6: u128)
    ensures
        a != 0 ==> settled(before, IpAddr::V4(a)) == Some(IpAddr::V4(a)),
        a != 0 ==> settled(before, IpAddr::V6((0xffff_0000_0000 + a) as u128)) == Some(
            IpAddr::V4(a),
        ),
        v6 > 0xffff_ffff_ffff ==> settled(before, IpAddr::V6(v6)) == Some(IpAddr::V6(v6)),
        settled(before, IpAddr::V4(0)) == before,
        settled(before, IpAddr::V6(0)) == before,
{
    assert((0xffff_0000_0000 + a) / 0x1_0000_0000 == 0xffff);
    assert((0xffff_0000_0000 + a) % 0x1_0000_0000 == a);
}

} // verus!
