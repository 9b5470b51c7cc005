//! Which addresses outgoing connections may reach: never a local,
//! private, link-local or multicast one, also when an IPv6 address only
//! wraps an IPv4 one.

use vstd::prelude::*;

verus! {

/// An IP address: four octets, or eight 16-bit segments.
#[derive(Clone, Copy, Debug, PartialEq, Eq)]
pub enum IpAddress {
    V4([u8; 4]),
    V6([u16; 8]),
}

/// An IPv4 address that is loopback (`127.0.0.0/8`), unspecified,
/// multicast (`224.0.0.0/4`), `0.0.0.0/8`, broadcast (`255.0.0.0/8`),
/// private (`10/8`, `172.16/12`, `192.168/16`), link-local (`169.254/16`)
/// or shared (`100.64/10`).
pub open spec fn v4_blocked(o: Seq<u8>) -> bool {
    ||| o[0] == 127
    ||| (o[0] == 0 && o[1] == 0 && o[2] == 0 && o[3] == 0)
    ||| (224 <= o[0] && o[0] <= 239)
    ||| o[0] == 10
    ||| o[0] == 0
    ||| o[0] == 255
    ||| (o[0] == 172 && 16 <= o[1] && o[1] <= 31)
    ||| (o[0] == 192 && o[1] == 168)
    ||| (o[0] == 169 && o[1] == 254)
    ||| (o[0] == 100 && 64 <= o[1] && o[1] <= 127)
}

/// The IPv4 address that an IPv4-mapped (`::ffff:a.b.c.d`) or
/// IPv4-compatible (`::a.b.c.d`) IPv6 address wraps.
pub open spec fn embedded_v4(s: Seq<u16>) -> Option<Seq<u8>> {
    if s[0] == 0 && s[1] == 0 && s[2] == 0 && s[3] == 0 && s[4] == 0 && (s[5] == 0xffff || s[5] == 0) {
        Some(seq![(s[6] / 256) as u8, (s[6] % 256) as u8, (s[7] / 256) as u8, (s[7] % 256) as u8])
    } else {
        None
    }
}

/// An IPv6 address that is loopback (`::1`), unspecified (`::`),
/// multicast (`ff00::/8`), unique local (`fc00::/7`) or link-local
/// (`fe80::/10`).
pub open spec fn v6_blocked(s: Seq<u16>) -> bool {
    ||| (s[0] == 0 && s[1] == 0 && s[2] == 0 && s[3] == 0 && s[4] == 0 && s[5] == 0 && s[6] == 0
        && s[7] == 1)
    ||| (s[0] == 0 && s[1] == 0 && s[2] == 0 && s[3] == 0 && s[4] == 0 && s[5] == 0 && s[6] == 0
        && s[7] == 0)
    ||| s[0] & 0xff00u16 == 0xff00u16
    ||| s[0] & 0xfe00u16 == 0xfc00u16
    ||| s[0] & 0xffc0u16 == 0xfe80u16
}

/// Whether a connection may go to `ip`: an IPv6 address that wraps an
/// IPv4 one is judged as that IPv4 address.
pub open spec fn ip_is_safe(ip: IpAddress) -> bool {
    match ip {
        IpAddress::V4(o) => !v4_blocked(o@),
        IpAddress::V6(s) => match embedded_v4(s@) {
            Some(o) => !v4_blocked(o),
            None => !v6_blocked(s@),
        },
    }
}

fn v4_is_blocked(o: &[u8; 4]) -> (r: bool)
    ensures
        r == v4_blocked(o@),
{
    let a = o[0];
    let b = o[1];
    a == 127 || (a == 0 && b == 0 && o[2] == 0 && o[3] == 0) || (224 <= a && a <= 239) || a == 10
        || a == 0 || a == 255 || (a == 172 && 16 <= b && b <= 31) || (a == 192 && b == 168) || (a
        == 169 && b == 254) || (a == 100 && 64 <= b && b <= 127)
}

fn v4_inside(s: &[u16; 8]) -> (r: Option<[u8; 4]>)
    ensures
        match r {
            Some(o) => embedded_v4(s@) == Some(o@),
            None => embedded_v4(s@) is None,
        },
{
    if s[0] == 0 && s[1] == 0 && s[2] == 0 && s[3] == 0 && s[4] == 0 && (s[5] == 0xffff || s[5] == 0) {
        let hi = s[6];
        let lo = s[7];
        let o: [u8; 4] = [(hi / 256) as u8, (hi % 256) as u8, (lo / 256) as u8, (lo % 256) as u8];
        assert(o@ =~= seq![(s@[6] / 256) as u8, (s@[6] % 256) as u8, (s@[7] / 256) as u8, (s@[7] % 256) as u8]);
        Some(o)
    } else {
        None
    }
}

fn v6_is_blocked(s: &[u16; 8]) -> (r: bool)
    ensures
        r == v6_blocked(s@),
{
    let low_zero = s[0] == 0 && s[1] == 0 && s[2] == 0 && s[3] == 0 && s[4] == 0 && s[5] == 0 && s[6] == 0;
    (low_zero && s[7] == 1) || (low_zero && s[7] == 0) || s[0] & 0xff00 == 0xff00 || s[0] & 0xfe00
        == 0xfc00 || s[0] & 0xffc0 == 0xfe80
}

/// Whether a connection may go to `ip`: not loopback, unspecified,
/// multicast, private, link-local or shared, judging an IPv4-mapped or
/// IPv4-compatible IPv6 address as the IPv4 address it wraps.
pub fn is_safe_ip(ip: IpAddress) -> (r: bool)
    ensures
        r == ip_is_safe(ip),
{
    match ip {
        IpAddress::V4(o) => !v4_is_blocked(&o),
        IpAddress::V6(s) => match v4_inside(&s) {
            Some(o) => !v4_is_blocked(&o),
            None => !v6_is_blocked(&s),
        },
    }
}

/// The safe addresses of `addrs`, in their order.
pub open spec fn safe_only(addrs: Seq<IpAddress>) -> Seq<IpAddress> {
    addrs.filter(|ip: IpAddress| ip_is_safe(ip))
}

/// Why a lookup was refused.
#[derive(Clone, Copy, Debug, PartialEq, Eq)]
pub enum ResolveError {
    /// Every address the name resolved to was local, private or multicast.
    Unauthorized,
}

impl ResolveError {
    /// The error's message.
    pub fn message(&self) -> (r: String)
        ensures
            r@ == "DNS resolved to an unauthorized private or local IP address"@,
    {
        String::from_str("DNS resolved to an unauthorized private or local IP address")
    }
}

/// A name resolver that never hands out a local, private or multicast
/// address.
#[derive(Clone, Copy, Debug)]
pub struct SafeDnsResolver;

impl SafeDnsResolver {
    /// What a lookup that gave `addrs` resolves to: its safe addresses,
    /// in order, or [`ResolveError::Unauthorized`] when none is safe.
    pub fn safe_addresses(&self, addrs: Vec<IpAddress>) -> (r: Result<Vec<IpAddress>, ResolveError>)
        ensures
            match r {
                Ok(v) => v@ == safe_only(addrs@) && v@.len() > 0,
                Err(e) => e == ResolveError::Unauthorized && safe_only(addrs@).len() == 0,
            },
    {
        let mut out: Vec<IpAddress> = Vec::new();
        let mut i: usize = 0;
        while i < addrs.len()
            invariant
                i <= addrs.len(),
                out@ == safe_only(addrs@.take(i as int)),
            decreases addrs.len() - i,
        {
            let ip = addrs[i];
            proof {
                let t = addrs@.take(i as int + 1);
                assert(t.drop_last() =~= addrs@.take(i as int));
                assert(t.last() == ip);
                reveal(Seq::filter);
            }
            if is_safe_ip(ip) {
                out.push(ip);
            }
            i = i + 1;
        }
        proof {
            assert(addrs@.take(addrs.len() as int) =~= addrs@);
        }
        if out.len() == 0 {
            Err(ResolveError::Unauthorized)
        } else {
            Ok(out)
        }
    }
}

} // verus!
