//! The address codec and the relay send-info framing: fixed-width binary
//! serialization of endpoints, its inverse, and the round-trip laws that tie
//! the two together.

use vstd::prelude::*;
use crate::endpoint::{IpAddress, SocketEndpoint};
use crate::error::IceError;

verus! {

broadcast use vstd::array::group_array_axioms;

/// Marker byte opening an outbound send-info frame, distinguishing it from
/// raw STUN traffic.
pub const SEND_INFO_PACKET_TYPE: u8 = 0xAA;

/// The true endpoints a relayed packet should appear to travel between.
#[derive(Clone, Copy, Debug, PartialEq, Eq)]
pub struct SendInfo {
    pub from: SocketEndpoint,
    pub to: SocketEndpoint,
}

impl SendInfo {
    /// Both endpoints belong to the same address family: the only pairs the
    /// wire format can represent.
    pub open spec fn same_family(self) -> bool {
        self.from.ip is V4 <==> self.to.ip is V4
    }
}

/// The two big-endian bytes of a port.
pub open spec fn spec_port_bytes(p: u16) -> Seq<u8> {
    seq![(p >> 8) as u8, (p & 0xff) as u8]
}

/// The port read back from two big-endian bytes at `off`.
pub open spec fn spec_port_at(s: Seq<u8>, off: int) -> u16 {
    ((s[off] as u16) << 8) | (s[off + 1] as u16)
}

/// Address octets followed by the port in big-endian: 6 bytes for a v4
/// endpoint, 18 for a v6 endpoint.
pub open spec fn spec_serialize_endpoint(e: SocketEndpoint) -> Seq<u8> {
    e.ip.octets() + spec_port_bytes(e.port)
}

/// Serialized length of one endpoint: implied by the address family.
pub open spec fn spec_endpoint_len(e: SocketEndpoint) -> int {
    if e.ip is V4 {
        6
    } else {
        18
    }
}

/// `from` then `to`, each serialized endpoint-wise.
pub open spec fn spec_send_info_bytes(si: SendInfo) -> Seq<u8> {
    spec_serialize_endpoint(si.from) + spec_serialize_endpoint(si.to)
}

/// The full outbound frame header: marker, one length byte, then the pair.
pub open spec fn spec_encode_send_info(si: SendInfo) -> Seq<u8> {
    seq![SEND_INFO_PACKET_TYPE, spec_send_info_bytes(si).len() as u8] + spec_send_info_bytes(si)
}

proof fn lemma_port_at_of_port_bytes(s: Seq<u8>, off: int, p: u16)
    requires
        0 <= off,
        off + 2 <= s.len(),
        s[off] == (p >> 8) as u8,
        s[off + 1] == (p & 0xff) as u8,
    ensures
        spec_port_at(s, off) == p,
{
    let hi = s[off];
    let lo = s[off + 1];
    assert(hi == (p >> 8) as u8 && lo == (p & 0xff) as u8 ==> (((hi as u16) << 8) | (lo as u16))
        == p) by (bit_vector);
}

/// Emits the endpoint's raw address octets followed by its port, big-endian.
/// Length is implied by the address family: no prefix at this level.
pub fn serialize_socket_addr(addr: SocketEndpoint) -> (out: Vec<u8>)
    ensures
        out@ == spec_serialize_endpoint(addr),
        out@.len() == spec_endpoint_len(addr),
{
    let mut out: Vec<u8> = Vec::new();
    match addr.ip {
        IpAddress::V4(o) => {
            let mut i: usize = 0;
            while i < 4
                invariant
                    0 <= i <= 4,
                    out@ == o@.subrange(0, i as int),
                decreases 4 - i,
            {
                out.push(o[i]);
                proof {
                    assert(out@ =~= o@.subrange(0, i + 1));
                }
                i = i + 1;
            }
            proof {
                assert(out@ =~= o@);
            }
        },
        IpAddress::V6(o) => {
            let mut i: usize = 0;
            while i < 16
                invariant
                    0 <= i <= 16,
                    out@ == o@.subrange(0, i as int),
                decreases 16 - i,
            {
                out.push(o[i]);
                proof {
                    assert(out@ =~= o@.subrange(0, i + 1));
                }
                i = i + 1;
            }
            proof {
                assert(out@ =~= o@);
            }
        },
    }
    out.push((addr.port >> 8) as u8);
    out.push((addr.port & 0xff) as u8);
    proof {
        assert(out@ =~= spec_serialize_endpoint(addr));
    }
    out
}

/// Reads one endpoint out of `buf` starting at `off`: address octets of the
/// requested family, then a big-endian port.
pub(crate) fn parse_endpoint_at(buf: &[u8], off: usize, v6: bool) -> (e: SocketEndpoint)
    requires
        off + (if v6 { 18int } else { 6int }) <= buf@.len(),
    ensures
        e.ip is V4 <==> !v6,
        e.ip.octets() == buf@.subrange(off as int, off + (if v6 { 16int } else { 4int })),
        e.port == spec_port_at(buf@, off + (if v6 { 16int } else { 4int })),
{
    if v6 {
        let o: [u8; 16] = [
            buf[off],
            buf[off + 1],
            buf[off + 2],
            buf[off + 3],
            buf[off + 4],
            buf[off + 5],
            buf[off + 6],
            buf[off + 7],
            buf[off + 8],
            buf[off + 9],
            buf[off + 10],
            buf[off + 11],
            buf[off + 12],
            buf[off + 13],
            buf[off + 14],
            buf[off + 15],
        ];
        let port: u16 = ((buf[off + 16] as u16) << 8) | (buf[off + 17] as u16);
        proof {
            assert(o@ =~= buf@.subrange(off as int, off + 16));
        }
        SocketEndpoint { ip: IpAddress::V6(o), port }
    } else {
        let o: [u8; 4] = [buf[off], buf[off + 1], buf[off + 2], buf[off + 3]];
        let port: u16 = ((buf[off + 4] as u16) << 8) | (buf[off + 5] as u16);
        proof {
            assert(o@ =~= buf@.subrange(off as int, off + 4));
        }
        SocketEndpoint { ip: IpAddress::V4(o), port }
    }
}

/// Parses a single serialized endpoint: 6 bytes mean v4, 18 mean v6, any
/// other length is rejected with `AddressParseFailed`.
pub fn parse_recv_info(buf: &[u8], len: usize) -> (r: Result<SocketEndpoint, IceError>)
    requires
        len == 6 || len == 18 ==> len <= buf@.len(),
    ensures
        len == 6 ==> (r matches Ok(e) && e.ip is V4 && e.ip.octets() == buf@.subrange(0, 4)
            && e.port == spec_port_at(buf@, 4)),
        len == 18 ==> (r matches Ok(e) && e.ip is V6 && e.ip.octets() == buf@.subrange(0, 16)
            && e.port == spec_port_at(buf@, 16)),
        len != 6 && len != 18 ==> r == Err::<SocketEndpoint, IceError>(
            IceError::AddressParseFailed,
        ),
{
    if len == 6 {
        Ok(parse_endpoint_at(buf, 0, false))
    } else if len == 18 {
        Ok(parse_endpoint_at(buf, 0, true))
    } else {
        Err(IceError::AddressParseFailed)
    }
}

/// Serializes `from` then `to`, prefixes the combined length as one byte and
/// then the outbound marker byte. The result is the full outbound header:
/// `[marker][len][from][to]`.
pub fn serialize_send_info(send_info: SendInfo) -> (r: Result<Vec<u8>, IceError>)
    ensures
        r matches Ok(v) && v@ == spec_encode_send_info(send_info),
{
    let mut body = serialize_socket_addr(send_info.from);
    let mut tail = serialize_socket_addr(send_info.to);
    body.append(&mut tail);
    let size = body.len() as u8;
    let mut out: Vec<u8> = Vec::new();
    out.push(SEND_INFO_PACKET_TYPE);
    out.push(size);
    out.append(&mut body);
    proof {
        assert(out@ =~= spec_encode_send_info(send_info));
    }
    Ok(out)
}

/// Round-trip law for single endpoints: a parsed endpoint whose family,
/// address octets and port were all read back from the serialization of `e`
/// is `e` itself. Together with the contracts of `serialize_socket_addr` and
/// `parse_recv_info` this says `parse_recv_info(serialize_socket_addr(e),
/// len) == Ok(e)` for every endpoint `e` and its own serialized length.
pub proof fn lemma_endpoint_round_trip(e: SocketEndpoint, p: SocketEndpoint)
    requires
        p.ip is V4 <==> e.ip is V4,
        p.ip.octets() == spec_serialize_endpoint(e).subrange(0, e.ip.octets().len() as int),
        p.port == spec_port_at(spec_serialize_endpoint(e), e.ip.octets().len() as int),
    ensures
        p == e,
{
    let s = spec_serialize_endpoint(e);
    let n = e.ip.octets().len() as int;
    assert(s.subrange(0, n) =~= e.ip.octets());
    match (p.ip, e.ip) {
        (IpAddress::V4(a), IpAddress::V4(b)) => {
            assert(a =~= b);
        },
        (IpAddress::V6(a), IpAddress::V6(b)) => {
            assert(a =~= b);
        },
        _ => {
            assert(false);
        },
    }
    assert(s[n] == (e.port >> 8) as u8);
    assert(s[n + 1] == (e.port & 0xff) as u8);
    lemma_port_at_of_port_bytes(s, n, e.port);
}

/// Round-trip law for endpoint pairs: a decoded pair whose families, octets
/// and ports were all read back from the serialized pair of `s` is `s`
/// itself. Together with the contracts of `serialize_send_info` and
/// `parse_send_info` this says that decoding the body of an encoded frame
/// yields the pair that was encoded, for every same-family pair.
pub proof fn lemma_send_info_round_trip(s: SendInfo, d: SendInfo)
    requires
        s.same_family(),
        d.from.ip is V4 <==> s.from.ip is V4,
        d.to.ip is V4 <==> s.to.ip is V4,
        ({
            let b = spec_send_info_bytes(s);
            let n = spec_endpoint_len(s.from);
            let il = if s.from.ip is V4 { 4int } else { 16int };
            &&& d.from.ip.octets() == b.subrange(0, il)
            &&& d.from.port == spec_port_at(b, il)
            &&& d.to.ip.octets() == b.subrange(n, n + il)
            &&& d.to.port == spec_port_at(b, n + il)
        }),
    ensures
        d == s,
{
    let b = spec_send_info_bytes(s);
    let sf = spec_serialize_endpoint(s.from);
    let st = spec_serialize_endpoint(s.to);
    let n = spec_endpoint_len(s.from);
    let il = if s.from.ip is V4 { 4int } else { 16int };
    assert(sf.len() == n);
    assert(b.subrange(0, il) =~= sf.subrange(0, il));
    assert(b[il] == sf[il] && b[il + 1] == sf[il + 1]);
    lemma_endpoint_round_trip(s.from, d.from);
    assert(b.subrange(n, n + il) =~= st.subrange(0, il));
    assert(b[n + il] == st[il] && b[n + il + 1] == st[il + 1]);
    lemma_endpoint_round_trip(s.to, d.to);
}

/// The header facts of an encoded frame: it opens with the outbound marker,
/// and its length byte is 12 for a v4 pair and 36 for a v6 pair.
pub proof fn lemma_encode_send_info_header(si: SendInfo)
    ensures
        spec_encode_send_info(si)[0] == SEND_INFO_PACKET_TYPE,
        spec_encode_send_info(si).len() == 2 + spec_send_info_bytes(si).len(),
        si.from.ip is V4 && si.to.ip is V4 ==> spec_encode_send_info(si)[1] == 12,
        si.from.ip is V6 && si.to.ip is V6 ==> spec_encode_send_info(si)[1] == 36,
{
    assert(spec_serialize_endpoint(si.from).len() == spec_endpoint_len(si.from));
    assert(spec_serialize_endpoint(si.to).len() == spec_endpoint_len(si.to));
}

/// Parses a serialized endpoint pair: length 12 means two v4 endpoints,
/// length 36 two v6 endpoints, and any other length is rejected with
/// `AddressParseFailed`. Mixed-family pairs are not representable.
pub fn parse_send_info(buf: &[u8], len: usize) -> (r: Result<SendInfo, IceError>)
    requires
        len == 12 || len == 36 ==> len <= buf@.len(),
    ensures
        len == 12 ==> (r matches Ok(si) && si.from.ip is V4 && si.to.ip is V4
            && si.from.ip.octets() == buf@.subrange(0, 4) && si.from.port == spec_port_at(buf@, 4)
            && si.to.ip.octets() == buf@.subrange(6, 10) && si.to.port == spec_port_at(buf@, 10)),
        len == 36 ==> (r matches Ok(si) && si.from.ip is V6 && si.to.ip is V6
            && si.from.ip.octets() == buf@.subrange(0, 16) && si.from.port == spec_port_at(
            buf@,
            16,
        ) && si.to.ip.octets() == buf@.subrange(18, 34) && si.to.port == spec_port_at(buf@, 34)),
        len != 12 && len != 36 ==> r == Err::<SendInfo, IceError>(IceError::AddressParseFailed),
        r matches Ok(si) ==> si.same_family(),
{
    if len == 12 {
        let from = parse_endpoint_at(buf, 0, false);
        let to = parse_endpoint_at(buf, 6, false);
        Ok(SendInfo { from, to })
    } else if len == 36 {
        let from = parse_endpoint_at(buf, 0, true);
        let to = parse_endpoint_at(buf, 18, true);
        Ok(SendInfo { from, to })
    } else {
        Err(IceError::AddressParseFailed)
    }
}

} // verus!
