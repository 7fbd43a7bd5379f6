//! Addresses as plain values.

use vstd::prelude::*;

use crate::text::{decimal, hex, hex_text, number};

verus! {

/// An IP address: its 32 or 128 bits, most significant first.
#[derive(Clone, Copy, PartialEq, Eq, Debug, Structural)]
pub enum IpAddr {
    V4(u32),
    V6(u128),
}

/// A UDP endpoint. The last two fields are for IPv6, and zero without it.
#[derive(Clone, Copy, PartialEq, Eq, Debug, Structural)]
pub struct SocketAddr {
    pub ip: IpAddr,
    pub port: u16,
    pub flow_info: u32,
    pub scope_id: u32,
}

/// Whether an address is an IPv4 one written as an IPv6 one (`::ffff:a.b.c.d`).
pub open spec fn is_mapped(ip: IpAddr) -> bool {
    ip matches IpAddr::V6(bits) && bits / 0x1_0000_0000 == 0xffff
}

/// An address in its plain form.
pub open spec fn plain_ip(ip: IpAddr) -> IpAddr {
    match ip {
        IpAddr::V6(bits) => if bits / 0x1_0000_0000 == 0xffff {
            IpAddr::V4((bits % 0x1_0000_0000) as u32)
        } else {
            ip
        },
        IpAddr::V4(_) => ip,
    }
}

/// An endpoint with its address in plain form.
pub open spec fn plain(addr: SocketAddr) -> SocketAddr {
    if is_mapped(addr.ip) {
        SocketAddr { ip: plain_ip(addr.ip), port: addr.port, flow_info: 0, scope_id: 0 }
    } else {
        addr
    }
}

/// An address in its plain form. A dual-stack socket reports an IPv4 peer as
/// an IPv4-mapped IPv6 one, and the two are the same address.
pub fn unmap_ip(ip: IpAddr) -> (r: IpAddr)
    ensures
        r == plain_ip(ip),
{
    match ip {
        IpAddr::V6(bits) => {
            if bits / 0x1_0000_0000 == 0xffff {
                IpAddr::V4((bits % 0x1_0000_0000) as u32)
            } else {
                ip
            }
        },
        IpAddr::V4(_) => ip,
    }
}

/// An endpoint with its address in plain form.
pub fn unmap(addr: SocketAddr) -> (r: SocketAddr)
    ensures
        r == plain(addr),
{
    match addr.ip {
        IpAddr::V6(bits) => {
            if bits / 0x1_0000_0000 == 0xffff {
                SocketAddr { ip: unmap_ip(addr.ip), port: addr.port, flow_info: 0, scope_id: 0 }
            } else {
                addr
            }
        },
        IpAddr::V4(_) => addr,
    }
}

impl IpAddr {
    /// Whether this is the wildcard of its family.
    pub open spec fn wildcard(self) -> bool {
        self == IpAddr::V4(0) || self == IpAddr::V6(0)
    }

    /// Whether this is the wildcard of its family.
    pub fn is_unspecified(&self) -> (r: bool)
        ensures
            r == self.wildcard(),
    {
        match self {
            IpAddr::V4(bits) => *bits == 0,
            IpAddr::V6(bits) => *bits == 0,
        }
    }
}

/// The last `n` groups of four hexadecimal digits of an IPv6 address, with
/// colons in between.
pub open spec fn groups(bits: nat, n: nat) -> Seq<char>
    decreases n,
{
    if n == 0 {
        Seq::empty()
    } else if n == 1 {
        hex(bits % 0x1_0000, 4)
    } else {
        groups(bits / 0x1_0000, (n - 1) as nat) + ":"@ + hex(bits % 0x1_0000, 4)
    }
}

/// The last `n` groups of four hexadecimal digits of an IPv6 address, with
/// colons in between.
fn groups_text(bits: u128, n: u8) -> (s: String)
    ensures
        s@ == groups(bits as nat, n as nat),
    decreases n,
{
    if n == 0 {
        return String::new();
    }
    let last = hex_text((bits % 0x1_0000) as u32, 4);
    if n == 1 {
        return last;
    }
    let mut s = groups_text(bits / 0x1_0000, n - 1);
    s.append(":");
    s.append(last.as_str());
    s
}

/// An endpoint as text: an IPv4 address with dots, or the eight groups of an
/// IPv6 address in brackets, and the port behind a colon.
pub open spec fn addr_text(addr: SocketAddr) -> Seq<char> {
    (match addr.ip {
        IpAddr::V4(bits) => decimal((bits / 0x100_0000) as nat) + "."@ + decimal(
            (bits / 0x1_0000 % 0x100) as nat,
        ) + "."@ + decimal((bits / 0x100 % 0x100) as nat) + "."@ + decimal((bits % 0x100) as nat),
        IpAddr::V6(bits) => "["@ + groups(bits as nat, 8) + "]"@,
    }) + ":"@ + decimal(addr.port as nat)
}

impl SocketAddr {
    /// This endpoint as text.
    pub fn text(&self) -> (s: String)
        ensures
            s@ == addr_text(*self),
    {
        let mut s = match self.ip {
            IpAddr::V4(bits) => {
                let mut s = number((bits / 0x100_0000) as u64);
                s.append(".");
                s.append(number((bits / 0x1_0000 % 0x100) as u64).as_str());
                s.append(".");
                s.append(number((bits / 0x100 % 0x100) as u64).as_str());
                s.append(".");
                s.append(number((bits % 0x100) as u64).as_str());
                s
            },
            IpAddr::V6(bits) => {
                let mut s = "[".to_owned();
                s.append(groups_text(bits, 8).as_str());
                s.append("]");
                s
            },
        };
        s.append(":");
        s.append(number(self.port as u64).as_str());
        s
    }
}

/// The plain form of a plain form is itself.
pub proof fn plain_twice_is_plain_once(ip: IpAddr)
    ensures
        plain_ip(plain_ip(ip)) == plain_ip(ip),
        !is_mapped(plain_ip(ip)),
{
}

/// The IPv4 addresses and no others have a second form, `::ffff:a.b.c.d`, and
/// its plain form is the address itself.
pub proof fn only_mapped_addresses_have_another_form(bits: u32, v6: u128)
    ensures
        plain_ip(IpAddr::V4(bits)) == IpAddr::V4(bits),
        plain_ip(IpAddr::V6((0xffff_0000_0000 + bits) as u128)) == IpAddr::V4(bits),
        is_mapped(IpAddr::V6(v6)) <==> 0xffff_0000_0000 <= v6 <= 0xffff_ffff_ffff,
        !is_mapped(IpAddr::V4(bits)),
        !(0xffff_0000_0000 <= v6 <= 0xffff_ffff_ffff) ==> plain_ip(IpAddr::V6(v6)) == IpAddr::V6(
            v6,
        ),
{
    assert((0xffff_0000_0000 + bits) / 0x1_0000_0000 == 0xffff);
    assert((0xffff_0000_0000 + bits) % 0x1_0000_0000 == bits);
}

/// Bringing an endpoint to its plain form keeps its port, and keeps all of it
/// unless its address was mapped.
pub proof fn plain_form_keeps_the_port(addr: SocketAddr)
    ensures
        plain(addr).port == addr.port,
        plain(addr).ip == plain_ip(addr.ip),
        !is_mapped(addr.ip) ==> plain(addr) == addr,
        is_mapped(addr.ip) ==> plain(addr).flow_info == 0 && plain(addr).scope_id == 0,
{
}

/// The wildcard of a family is its zero address and no other.
pub proof fn the_wildcard_is_zero(a: u32, b: u128)
    ensures
        IpAddr::V4(a).wildcard() <==> a == 0,
        IpAddr::V6(b).wildcard() <==> b == 0,
{
}

/// An IPv4 endpoint reads as its four bytes, most significant first, with dots
/// between them and its port behind a colon.
pub proof fn an_ipv4_endpoint_reads_byte_by_byte(a: u8, b: u8, c: u8, d: u8, addr: SocketAddr)
    requires
        addr.ip == IpAddr::V4(
            (a * 0x100_0000 + b * 0x1_0000 + c * 0x100 + d) as u32,
        ),
    ensures
        addr_text(addr) == decimal(a as nat) + "."@ + decimal(b as nat) + "."@ + decimal(c as nat)
            + "."@ + decimal(d as nat) + ":"@ + decimal(addr.port as nat),
{
    let bits = a * 0x100_0000 + b * 0x1_0000 + c * 0x100 + d;
    let low = b * 0x1_0000 + c * 0x100 + d;
    assert(bits / 0x100_0000 == a && bits % 0x100_0000 == low);
    assert(bits / 0x1_0000 == a * 0x100 + b);
    assert((a * 0x100 + b) % 0x100 == b);
    assert(bits / 0x100 == a * 0x1_0000 + b * 0x100 + c);
    assert((a * 0x1_0000 + b * 0x100 + c) % 0x100 == c);
    assert(bits % 0x100 == d);
}

/// An IPv6 endpoint reads as eight groups of four hexadecimal digits in
/// brackets, most significant first, with its port behind a colon.
pub proof fn an_ipv6_endpoint_reads_group_by_group(addr: SocketAddr, bits: u128)
    requires
        addr.ip == IpAddr::V6(bits),
    ensures
        addr_text(addr) == "["@ + groups(bits as nat, 8) + "]"@ + ":"@ + decimal(addr.port as nat),
        forall|n: nat|
            n >= 2 ==> #[trigger] groups(bits as nat, n) == groups(
                bits as nat / 0x1_0000,
                (n - 1) as nat,
            ) + ":"@ + hex(bits as nat % 0x1_0000, 4),
        groups(bits as nat, 1) == hex(bits as nat % 0x1_0000, 4),
{
}

} // verus!
