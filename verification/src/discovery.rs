//! Local candidate discovery: filtering enumerated interface addresses, and
//! planning the randomized-start, wrap-around port scan used to bind a UDP
//! socket inside a configured range. Enumeration and binding themselves are
//! network work done by the caller; every decision about them is made here.

use vstd::prelude::*;
use crate::endpoint::{IpAddress, SocketEndpoint};
use crate::error::IceError;

verus! {

/// The network types a caller may request candidates for; only the address
/// family matters to discovery.
#[derive(Clone, Copy, Debug, PartialEq, Eq)]
pub enum NetworkType {
    Udp4,
    Udp6,
    Tcp4,
    Tcp6,
}

impl NetworkType {
    pub open spec fn spec_is_ipv4(self) -> bool {
        self is Udp4 || self is Tcp4
    }

    pub open spec fn spec_is_ipv6(self) -> bool {
        self is Udp6 || self is Tcp6
    }

    pub fn is_ipv4(&self) -> (r: bool)
        ensures
            r == self.spec_is_ipv4(),
    {
        match self {
            NetworkType::Udp4 | NetworkType::Tcp4 => true,
            _ => false,
        }
    }

    pub fn is_ipv6(&self) -> (r: bool)
        ensures
            r == self.spec_is_ipv6(),
    {
        match self {
            NetworkType::Udp6 | NetworkType::Tcp6 => true,
            _ => false,
        }
    }
}

/// Pairs an address with a port; the network type does not change the shape
/// of the endpoint.
pub fn create_addr(_network: NetworkType, ip: IpAddress, port: u16) -> (r: SocketEndpoint)
    ensures
        r.ip == ip,
        r.port == port,
{
    SocketEndpoint { ip, port }
}

/// One address of one interface, with the verdict of the caller-supplied
/// per-address filter (`true` when no filter was given).
#[derive(Clone, Copy, Debug)]
pub struct AddrCandidate {
    pub ip: IpAddress,
    pub ip_allowed: bool,
}

/// One enumerated interface: the verdict of the caller-supplied name filter
/// (`true` when no filter was given) and the interface's addresses.
#[derive(Clone, Debug)]
pub struct InterfaceDesc {
    pub name_allowed: bool,
    pub addrs: Vec<AddrCandidate>,
}

pub open spec fn spec_v4_requested(types: Seq<NetworkType>) -> bool {
    exists|t: int| 0 <= t < types.len() && types[t].spec_is_ipv4()
}

pub open spec fn spec_v6_requested(types: Seq<NetworkType>) -> bool {
    exists|t: int| 0 <= t < types.len() && types[t].spec_is_ipv6()
}

/// An address is kept exactly when its interface passed the name filter, it
/// passed the address filter, it is not a loopback address, and its family
/// was requested.
pub open spec fn spec_candidate_ok(
    ifc: InterfaceDesc,
    ad: AddrCandidate,
    v4req: bool,
    v6req: bool,
) -> bool {
    &&& ifc.name_allowed
    &&& ad.ip_allowed
    &&& !ad.ip.spec_is_loopback()
    &&& if ad.ip is V4 {
        v4req
    } else {
        v6req
    }
}

/// `ip` is among the addresses that discovery must report.
pub open spec fn spec_selected(
    ifaces: Seq<InterfaceDesc>,
    v4req: bool,
    v6req: bool,
    ip: IpAddress,
) -> bool {
    exists|i: int, j: int|
        0 <= i < ifaces.len() && 0 <= j < ifaces[i].addrs@.len() && ifaces[i].addrs@[j].ip == ip
            && spec_candidate_ok(ifaces[i], ifaces[i].addrs@[j], v4req, v6req)
}

fn vec_contains_ip(v: &Vec<IpAddress>, ip: &IpAddress) -> (r: bool)
    ensures
        r == v@.contains(*ip),
{
    let mut k: usize = 0;
    while k < v.len()
        invariant
            0 <= k <= v@.len(),
            forall|t: int| 0 <= t < k ==> v@[t] != *ip,
        decreases v@.len() - k,
    {
        if v[k].same_as(ip) {
            return true;
        }
        k = k + 1;
    }
    proof {
        assert(!v@.contains(*ip));
    }
    false
}

/// The set of local candidate addresses: every address of every enumerated
/// interface that passes both filters, is not loopback, and has a requested
/// family — each reported once, duplicates across interfaces collapsed.
pub fn local_interfaces(interfaces: &Vec<InterfaceDesc>, network_types: &Vec<NetworkType>) -> (ips:
    Vec<IpAddress>)
    ensures
        forall|k1: int, k2: int| 0 <= k1 < k2 < ips@.len() ==> ips@[k1] != ips@[k2],
        forall|ip: IpAddress| #[trigger] ips@.contains(ip) ==> spec_selected(
            interfaces@,
            spec_v4_requested(network_types@),
            spec_v6_requested(network_types@),
            ip,
        ),
        forall|ip: IpAddress| #[trigger] spec_selected(
            interfaces@,
            spec_v4_requested(network_types@),
            spec_v6_requested(network_types@),
            ip,
        ) ==> ips@.contains(ip),
{
    let mut v4req = false;
    let mut v6req = false;
    let mut t: usize = 0;
    while t < network_types.len()
        invariant
            0 <= t <= network_types@.len(),
            v4req == (exists|k: int| 0 <= k < t && network_types@[k].spec_is_ipv4()),
            v6req == (exists|k: int| 0 <= k < t && network_types@[k].spec_is_ipv6()),
        decreases network_types@.len() - t,
    {
        if network_types[t].is_ipv4() {
            v4req = true;
        }
        if network_types[t].is_ipv6() {
            v6req = true;
        }
        t = t + 1;
    }
    proof {
        assert(v4req == spec_v4_requested(network_types@));
        assert(v6req == spec_v6_requested(network_types@));
    }

    let mut ips: Vec<IpAddress> = Vec::new();
    let mut i: usize = 0;
    while i < interfaces.len()
        invariant
            0 <= i <= interfaces@.len(),
            forall|k1: int, k2: int| 0 <= k1 < k2 < ips@.len() ==> ips@[k1] != ips@[k2],
            forall|ip: IpAddress| #[trigger] ips@.contains(ip) ==> spec_selected(
                interfaces@,
                v4req,
                v6req,
                ip,
            ),
            forall|ii: int, jj: int|
                0 <= ii < i && 0 <= jj < interfaces@[ii].addrs@.len() && spec_candidate_ok(
                    interfaces@[ii],
                    #[trigger] interfaces@[ii].addrs@[jj],
                    v4req,
                    v6req,
                ) ==> ips@.contains(interfaces@[ii].addrs@[jj].ip),
        decreases interfaces@.len() - i,
    {
        let ifc = &interfaces[i];
        let mut j: usize = 0;
        while j < ifc.addrs.len()
            invariant
                0 <= i < interfaces@.len(),
                0 <= j <= ifc.addrs@.len(),
                ifc == interfaces@[i as int],
                forall|k1: int, k2: int| 0 <= k1 < k2 < ips@.len() ==> ips@[k1] != ips@[k2],
                forall|ip: IpAddress| #[trigger] ips@.contains(ip) ==> spec_selected(
                    interfaces@,
                    v4req,
                    v6req,
                    ip,
                ),
                forall|ii: int, jj: int|
                    0 <= ii < i && 0 <= jj < interfaces@[ii].addrs@.len() && spec_candidate_ok(
                        interfaces@[ii],
                        #[trigger] interfaces@[ii].addrs@[jj],
                        v4req,
                        v6req,
                    ) ==> ips@.contains(interfaces@[ii].addrs@[jj].ip),
                forall|jj: int|
                    0 <= jj < j && spec_candidate_ok(
                        interfaces@[i as int],
                        #[trigger] interfaces@[i as int].addrs@[jj],
                        v4req,
                        v6req,
                    ) ==> ips@.contains(interfaces@[i as int].addrs@[jj].ip),
            decreases ifc.addrs@.len() - j,
        {
            let ad = &ifc.addrs[j];
            let fam_req = if ad.ip.is_v4() {
                v4req
            } else {
                v6req
            };
            if ifc.name_allowed && ad.ip_allowed && !ad.ip.is_loopback() && fam_req {
                if !vec_contains_ip(&ips, &ad.ip) {
                    let ghost old_ips = ips@;
                    ips.push(ad.ip);
                    proof {
                        assert(spec_candidate_ok(
                            interfaces@[i as int],
                            interfaces@[i as int].addrs@[j as int],
                            v4req,
                            v6req,
                        ));
                        assert(spec_selected(interfaces@, v4req, v6req, ad.ip));
                        assert(ips@[old_ips.len() as int] == ad.ip);
                        assert(ips@.contains(ad.ip));
                        assert forall|ip: IpAddress| old_ips.contains(ip) implies ips@.contains(
                            ip,
                        ) by {
                            let t = choose|t: int| 0 <= t < old_ips.len() && old_ips[t] == ip;
                            assert(ips@[t] == ip);
                        }
                        assert forall|ip: IpAddress| #[trigger] ips@.contains(ip)
                            implies spec_selected(interfaces@, v4req, v6req, ip) by {
                            let t = choose|t: int| 0 <= t < ips@.len() && ips@[t] == ip;
                            if t < old_ips.len() {
                                assert(old_ips[t] == ip);
                                assert(old_ips.contains(ip));
                            } else {
                                assert(ip == ad.ip);
                            }
                        }
                        assert(forall|t: int| 0 <= t < old_ips.len() ==> old_ips[t] != ad.ip);
                    }
                }
            }
            j = j + 1;
        }
        i = i + 1;
    }
    ips
}

/// Relies on `rand::random`: a value drawn from the thread-local generator.
/// Nothing can be promised of a random value.
pub assume_specification<T>[ rand::random::<T> ]() -> (r: T)
    where
        rand::distributions::Standard: rand::distributions::Distribution<T>,
;

/// Binding skips the scan entirely when the requested local address already
/// names a port, or when both range bounds are zero.
pub fn should_bind_directly(laddr: SocketEndpoint, port_min: u16, port_max: u16) -> (r: bool)
    ensures
        r == (laddr.port != 0 || (port_min == 0 && port_max == 0)),
{
    laddr.port != 0 || (port_min == 0 && port_max == 0)
}

/// The effective scan range: a zero minimum defaults to 1, a zero maximum to
/// 65535, and a minimum above the maximum is an invalid range.
pub fn pick_port_range(port_min: u16, port_max: u16) -> (r: Result<(u16, u16), IceError>)
    ensures
        ({
            let lo = if port_min == 0 { 1u16 } else { port_min };
            let hi = if port_max == 0 { 0xffffu16 } else { port_max };
            if lo > hi {
                r == Err::<(u16, u16), IceError>(IceError::InvalidPortRange)
            } else {
                r == Ok::<(u16, u16), IceError>((lo, hi))
            }
        }),
{
    let lo = if port_min == 0 { 1 } else { port_min };
    let hi = if port_max == 0 { 0xffff } else { port_max };
    if lo > hi {
        Err(IceError::InvalidPortRange)
    } else {
        Ok((lo, hi))
    }
}

/// A starting port within `[min, max]` drawn from the thread-local
/// generator, so that repeated runs and concurrent agents do not all scan
/// from the same point. Only the range is claimed of it.
pub fn pick_start_port(min: u16, max: u16) -> (p: u16)
    requires
        min <= max,
    ensures
        min <= p <= max,
{
    let r: u16 = rand::random::<u16>();
    let span: u32 = max as u32 - min as u32 + 1;
    let p: u32 = min as u32 + (r as u32) % span;
    p as u16
}

/// The port tried at step `k` of a scan of `[min, max]` that starts at
/// `start`: counts up from `start` and wraps from `max` back to `min`.
pub open spec fn spec_scan_port(min: u16, max: u16, start: u16, k: int) -> int {
    if start + k <= max {
        start + k
    } else {
        start + k - (max - min + 1)
    }
}

/// The full scan order for `[min, max]` starting at `start`: every port of
/// the range appears exactly once, in wrap-around order from `start`. Its
/// length bounds the scan, so a caller that fails on every port stops after
/// trying each port exactly once; and every port of the range — so every
/// free one — is reached from every starting point within one pass.
pub fn port_scan_order(min: u16, max: u16, start: u16) -> (order: Vec<u16>)
    requires
        min <= start <= max,
    ensures
        order@.len() == max - min + 1,
        forall|k: int| 0 <= k < order@.len() ==> order@[k] as int == spec_scan_port(
            min,
            max,
            start,
            k,
        ),
        forall|k: int| 0 <= k < order@.len() ==> min <= #[trigger] order@[k] <= max,
        order@[0] == start,
        forall|k1: int, k2: int| 0 <= k1 < k2 < order@.len() ==> order@[k1] != order@[k2],
        forall|p: u16| min <= p <= max ==> order@.contains(p),
{
    let range: usize = max as usize - min as usize + 1;
    let mut order: Vec<u16> = Vec::new();
    let mut cur: u16 = start;
    let mut k: usize = 0;
    while k < range
        invariant
            min <= start <= max,
            range == max - min + 1,
            0 <= k <= range,
            order@.len() == k,
            cur as int == spec_scan_port(min, max, start, k as int),
            min <= cur <= max,
            forall|t: int| 0 <= t < k ==> order@[t] as int == spec_scan_port(min, max, start, t),
            forall|t: int| 0 <= t < k ==> min <= #[trigger] order@[t] <= max,
        decreases range - k,
    {
        order.push(cur);
        cur = if cur == max {
            min
        } else {
            cur + 1
        };
        k = k + 1;
    }
    proof {
        assert forall|k1: int, k2: int| 0 <= k1 < k2 < order@.len() implies order@[k1]
            != order@[k2] by {
            assert(order@[k1] as int == spec_scan_port(min, max, start, k1));
            assert(order@[k2] as int == spec_scan_port(min, max, start, k2));
        }
        assert forall|p: u16| min <= p <= max implies order@.contains(p) by {
            let k = if p >= start {
                p - start
            } else {
                p + (max - min + 1) - start
            };
            assert(order@[k as int] as int == spec_scan_port(min, max, start, k as int));
            assert(order@[k as int] == p);
        }
    }
    order
}

/// Plans one whole scan for the configured range: apply the zero-bound
/// defaults, reject an inverted range with `InvalidPortRange`, pick a random
/// starting port, and lay out the wrap-around order. The caller attempts to
/// bind each listed port in turn and reports `NoPortAvailable` only after
/// the whole plan — each port of the range exactly once — has failed.
pub fn plan_port_scan(port_min: u16, port_max: u16) -> (r: Result<Vec<u16>, IceError>)
    ensures
        ({
            let lo = if port_min == 0 { 1u16 } else { port_min };
            let hi = if port_max == 0 { 0xffffu16 } else { port_max };
            &&& (lo > hi <==> r == Err::<Vec<u16>, IceError>(IceError::InvalidPortRange))
            &&& (lo <= hi ==> r is Ok)
            &&& (r matches Ok(v) ==> {
                &&& v@.len() == hi - lo + 1
                &&& (forall|k: int| 0 <= k < v@.len() ==> lo <= #[trigger] v@[k] <= hi)
                &&& (forall|k1: int, k2: int| 0 <= k1 < k2 < v@.len() ==> v@[k1] != v@[k2])
                &&& (forall|p: u16| lo <= p <= hi ==> v@.contains(p))
            })
        }),
{
    let (lo, hi) = pick_port_range(port_min, port_max)?;
    let start = pick_start_port(lo, hi);
    Ok(port_scan_order(lo, hi, start))
}

} // verus!
