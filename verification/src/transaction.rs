//! The compute steps of one STUN binding-request exchange: building the
//! outbound relay frame, bounding the wait for the reply, and classifying a
//! received buffer as a relayed-response frame or a direct STUN message.
//! The asynchronous shell around these steps lives outside the library.

use vstd::prelude::*;
use crate::codec::{
    parse_endpoint_at, serialize_send_info, spec_encode_send_info, spec_port_at,
    spec_send_info_bytes, spec_serialize_endpoint, SendInfo,
};
use crate::endpoint::SocketEndpoint;
use crate::error::IceError;
use crate::stun_msg::{decode_message, new_binding_request, stun_decodes};

verus! {

/// Marker byte opening an inbound relayed-response frame.
pub const RELAYED_RESPONSE_PACKET_TYPE: u8 = 0xCC;

/// Size of the receive buffer: the maximum expected STUN message.
pub const MAX_MESSAGE_SIZE: usize = 1280;

/// A received buffer is a relayed-response frame exactly when its first byte
/// is the relayed-response marker; anything else is a direct STUN message.
pub open spec fn spec_is_relayed(buf: Seq<u8>) -> bool {
    buf[0] == RELAYED_RESPONSE_PACKET_TYPE
}

/// A relayed frame of total received length `n` is well-formed when its
/// length byte names a representable pair (12 or 36) that fits in `n`.
pub open spec fn spec_frame_ok(buf: Seq<u8>, n: int) -> bool {
    &&& n >= 2
    &&& (buf[1] == 12 || buf[1] == 36)
    &&& 2 + buf[1] <= n
}

/// The bytes handed to the STUN decoder: everything after the relay header
/// for a relayed frame, the whole received prefix for a direct message.
pub open spec fn spec_stun_bytes(buf: Seq<u8>, n: int) -> Seq<u8> {
    if spec_is_relayed(buf) {
        buf.subrange(2 + buf[1], n)
    } else {
        buf.subrange(0, n)
    }
}

/// The resolved local address of a well-formed relayed frame: the `to`
/// endpoint of the header pair, read straight from the frame's bytes.
pub open spec fn spec_relayed_local_ok(buf: Seq<u8>, local: SocketEndpoint) -> bool {
    if buf[1] == 12 {
        &&& local.ip is V4
        &&& local.ip.octets() == buf.subrange(8, 12)
        &&& local.port == spec_port_at(buf, 12)
    } else {
        &&& local.ip is V6
        &&& local.ip.octets() == buf.subrange(20, 36)
        &&& local.port == spec_port_at(buf, 36)
    }
}

/// The fixed local rendezvous address all outbound relay frames are sent to:
/// the relay process listens on loopback port 12345.
pub fn relay_endpoint() -> (r: SocketEndpoint)
    ensures
        r.ip is V4,
        r.ip.octets() == seq![127u8, 0u8, 0u8, 1u8],
        r.port == 12345,
{
    let e = SocketEndpoint {
        ip: crate::endpoint::IpAddress::V4([127u8, 0u8, 0u8, 1u8]),
        port: 12345,
    };
    proof {
        assert(e.ip.octets() =~= seq![127u8, 0u8, 0u8, 1u8]);
    }
    e
}

/// The receive bound for one exchange: a zero deadline means wait
/// indefinitely, a nonzero deadline gets 200 ms of extra grace.
pub fn effective_timeout_ms(deadline_ms: u64) -> (r: Option<u64>)
    requires
        deadline_ms + 200 <= u64::MAX,
    ensures
        deadline_ms == 0 ==> r is None,
        deadline_ms > 0 ==> r == Some((deadline_ms + 200) as u64),
{
    if deadline_ms == 0 {
        None
    } else {
        Some(deadline_ms + 200)
    }
}

/// Builds the combined outbound buffer for one exchange: the encoded
/// send-info header for `from: local, to: server`, followed by a fresh STUN
/// binding request. Building cannot fail: every endpoint pair encodes, and
/// the binding-request builder always returns its header.
pub fn prepare_stun_request(local: SocketEndpoint, server: SocketEndpoint) -> (r: Result<
    Vec<u8>,
    IceError,
>)
    ensures
        r is Ok,
        r matches Ok(v) ==> ({
            let hdr = spec_encode_send_info(SendInfo { from: local, to: server });
            &&& v@.len() == hdr.len() + 20
            &&& v@.subrange(0, hdr.len() as int) == hdr
            &&& v@[hdr.len() as int] == 0x00u8
            &&& v@[hdr.len() as int + 1] == 0x01u8
            &&& v@[hdr.len() as int + 4] == 0x21u8
            &&& v@[hdr.len() as int + 5] == 0x12u8
            &&& v@[hdr.len() as int + 6] == 0xa4u8
            &&& v@[hdr.len() as int + 7] == 0x42u8
        }),
{
    let send_info = SendInfo { from: local, to: server };
    let mut out = match serialize_send_info(send_info) {
        Ok(v) => v,
        Err(_) => {
            return Err(IceError::StunDecodeFailed);
        },
    };
    let ghost hdr = out@;
    let mut request = match new_binding_request() {
        Ok(v) => v,
        Err(_) => {
            return Err(IceError::StunDecodeFailed);
        },
    };
    let ghost req = request@;
    out.append(&mut request);
    proof {
        assert(out@.subrange(0, hdr.len() as int) =~= hdr);
        assert(out@[hdr.len() as int] == req[0]);
        assert(out@[hdr.len() as int + 1] == req[1]);
        assert(out@[hdr.len() as int + 4] == req[4]);
        assert(out@[hdr.len() as int + 5] == req[5]);
        assert(out@[hdr.len() as int + 6] == req[6]);
        assert(out@[hdr.len() as int + 7] == req[7]);
    }
    Ok(out)
}

/// Copies `buf[start..end]` into a fresh vector.
fn copy_range(buf: &[u8], start: usize, end: usize) -> (v: Vec<u8>)
    requires
        start <= end <= buf@.len(),
    ensures
        v@ == buf@.subrange(start as int, end as int),
{
    let mut v: Vec<u8> = Vec::new();
    let mut i: usize = start;
    while i < end
        invariant
            start <= i <= end <= buf@.len(),
            v@ == buf@.subrange(start as int, i as int),
        decreases end - i,
    {
        v.push(buf[i]);
        proof {
            assert(v@ =~= buf@.subrange(start as int, i + 1));
        }
        i = i + 1;
    }
    v
}

/// Classifies the first `n` received bytes: a buffer opening with the
/// relayed-response marker must carry a well-formed relay header, whose `to`
/// endpoint becomes the resolved local address and whose remainder is the
/// STUN message; any other buffer is a direct STUN message with the zero
/// address. A malformed relay header is rejected, not crashed on.
pub fn classify_response(buf: &[u8], n: usize) -> (r: Result<
    (Vec<u8>, SocketEndpoint),
    IceError,
>)
    requires
        n <= buf@.len(),
        buf@.len() >= 1,
    ensures
        !spec_is_relayed(buf@) ==> (r matches Ok((sb, local)) && sb@ == spec_stun_bytes(buf@, n as int)
            && local == SocketEndpoint::spec_zero()),
        spec_is_relayed(buf@) && spec_frame_ok(buf@, n as int) ==> (r matches Ok((sb, local))
            && sb@ == spec_stun_bytes(buf@, n as int) && spec_relayed_local_ok(buf@, local)),
        spec_is_relayed(buf@) && !spec_frame_ok(buf@, n as int) ==> r == Err::<
            (Vec<u8>, SocketEndpoint),
            IceError,
        >(IceError::AddressParseFailed),
{
    let p_type = buf[0];
    if p_type != RELAYED_RESPONSE_PACKET_TYPE {
        let sb = copy_range(buf, 0, n);
        return Ok((sb, SocketEndpoint::zero()));
    }
    if n < 2 {
        return Err(IceError::AddressParseFailed);
    }
    let len = buf[1] as usize;
    if !(len == 12 || len == 36) || 2 + len > n {
        return Err(IceError::AddressParseFailed);
    }
    let local = if len == 12 {
        parse_endpoint_at(buf, 8, false)
    } else {
        parse_endpoint_at(buf, 20, true)
    };
    let sb = copy_range(buf, 2 + len, n);
    Ok((sb, local))
}

/// Runs the receive side of one exchange over plain values: classify the
/// buffer, then decode the STUN message from the classified bytes. Once the
/// frame is well formed, success is exactly the decoder's acceptance of
/// `spec_stun_bytes(buf, n)` — the message is decoded from those bytes and
/// nothing else — and the resolved local address is the relay header's `to`
/// endpoint for a relayed frame and the zero address otherwise.
pub fn process_stun_reply(buf: &[u8], n: usize) -> (r: Result<
    (stun::message::Message, SocketEndpoint),
    IceError,
>)
    requires
        n <= buf@.len(),
        buf@.len() >= 1,
    ensures
        r matches Ok((m, local)) ==> {
            &&& spec_is_relayed(buf@) ==> spec_frame_ok(buf@, n as int) && spec_relayed_local_ok(
                buf@,
                local,
            )
            &&& !spec_is_relayed(buf@) ==> local == SocketEndpoint::spec_zero()
            &&& spec_stun_bytes(buf@, n as int).len() >= 20
        },
        spec_is_relayed(buf@) && !spec_frame_ok(buf@, n as int) ==> (r matches Err(e) && e
            == IceError::AddressParseFailed),
        (spec_is_relayed(buf@) ==> spec_frame_ok(buf@, n as int)) ==> (r is Ok <==> stun_decodes(
            spec_stun_bytes(buf@, n as int),
        )),
        (spec_is_relayed(buf@) ==> spec_frame_ok(buf@, n as int)) && !stun_decodes(
            spec_stun_bytes(buf@, n as int),
        ) ==> r == Err::<(stun::message::Message, SocketEndpoint), IceError>(
            IceError::StunDecodeFailed,
        ),
{
    let (sb, local) = match classify_response(buf, n) {
        Ok(v) => v,
        Err(e) => {
            return Err(e);
        },
    };
    let msg = match decode_message(sb.as_slice()) {
        Ok(m) => m,
        Err(e) => {
            return Err(e);
        },
    };
    Ok((msg, local))
}

/// Classification law, message half: a well-formed relayed frame and the
/// bare buffer holding only its STUN payload hand the decoder the same
/// bytes, so both decode to the same STUN message.
pub proof fn lemma_relayed_and_direct_agree(buf: Seq<u8>, n: int, direct: Seq<u8>)
    requires
        0 < n <= buf.len(),
        spec_is_relayed(buf),
        spec_frame_ok(buf, n),
        direct == buf.subrange(2 + buf[1], n),
        direct.len() > 0,
        direct[0] != RELAYED_RESPONSE_PACKET_TYPE,
    ensures
        spec_stun_bytes(buf, n) == spec_stun_bytes(direct, direct.len() as int),
{
    assert(spec_stun_bytes(direct, direct.len() as int) =~= direct);
}

/// Classification law, address half: when the relay header of a well-formed
/// v4 frame carries the serialized pair `si`, the resolved local address is
/// exactly `si.to`.
pub proof fn lemma_relayed_local_is_to(buf: Seq<u8>, si: SendInfo, local: SocketEndpoint)
    requires
        si.from.ip is V4,
        si.to.ip is V4,
        buf.len() >= 14,
        buf[1] == 12,
        buf.subrange(2, 14) == spec_send_info_bytes(si),
        spec_relayed_local_ok(buf, local),
    ensures
        local == si.to,
{
    let b = spec_send_info_bytes(si);
    let st = spec_serialize_endpoint(si.to);
    assert(spec_serialize_endpoint(si.from).len() == 6);
    assert(forall|k: int| 0 <= k < 12 ==> b[k] == #[trigger] buf.subrange(2, 14)[k]);
    assert(forall|k: int| 0 <= k < 12 ==> b[k] == buf[2 + k]);
    assert(forall|k: int| 0 <= k < 6 ==> st[k] == b[6 + k]);
    assert(buf.subrange(8, 12) =~= st.subrange(0, 4));
    assert(buf[12] == b[10] && b[10] == st[4]);
    assert(buf[13] == b[11] && b[11] == st[5]);
    crate::codec::lemma_endpoint_round_trip(si.to, local);
}

} // verus!
