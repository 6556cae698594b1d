use ice::codec::{
    parse_recv_info, parse_send_info, serialize_send_info, serialize_socket_addr, SendInfo,
    SEND_INFO_PACKET_TYPE,
};
use ice::endpoint::{IpAddress, SocketEndpoint};
use ice::error::IceError;

fn v4(a: u8, b: u8, c: u8, d: u8, port: u16) -> SocketEndpoint {
    SocketEndpoint { ip: IpAddress::V4([a, b, c, d]), port }
}

fn v6(first: u8, last: u8, port: u16) -> SocketEndpoint {
    let mut o = [0u8; 16];
    o[0] = first;
    o[15] = last;
    SocketEndpoint { ip: IpAddress::V6(o), port }
}

#[test]
fn endpoint_round_trip_v4() {
    for port in [0u16, 1, 80, 5000, 65535] {
        let e = v4(192, 168, 1, 7, port);
        let bytes = serialize_socket_addr(e);
        assert_eq!(bytes.len(), 6);
        let parsed = parse_recv_info(&bytes, bytes.len()).unwrap();
        assert_eq!(parsed, e);
    }
}

#[test]
fn endpoint_round_trip_v6() {
    for port in [0u16, 1, 443, 65535] {
        let e = v6(0x20, 0x01, port);
        let bytes = serialize_socket_addr(e);
        assert_eq!(bytes.len(), 18);
        let parsed = parse_recv_info(&bytes, bytes.len()).unwrap();
        assert_eq!(parsed, e);
    }
}

#[test]
fn endpoint_serialization_layout() {
    let e = v4(10, 0, 0, 1, 0x1234);
    let bytes = serialize_socket_addr(e);
    assert_eq!(bytes, vec![10, 0, 0, 1, 0x12, 0x34]);
}

#[test]
fn parse_endpoint_rejects_bad_lengths() {
    let buf = [0u8; 32];
    for len in [0usize, 1, 5, 7, 12, 17, 19, 32] {
        let r = parse_recv_info(&buf, len);
        assert_eq!(r, Err(IceError::AddressParseFailed));
    }
}

#[test]
fn send_info_round_trip_v4() {
    let si = SendInfo { from: v4(127, 0, 0, 1, 40000), to: v4(8, 8, 8, 8, 3478) };
    let encoded = serialize_send_info(si).unwrap();
    assert_eq!(encoded[0], SEND_INFO_PACKET_TYPE);
    assert_eq!(encoded[0], 0xAA);
    assert_eq!(encoded[1], 12);
    assert_eq!(encoded.len(), 14);
    let decoded = parse_send_info(&encoded[2..], encoded[1] as usize).unwrap();
    assert_eq!(decoded, si);
}

#[test]
fn send_info_round_trip_v6() {
    let si = SendInfo { from: v6(0xfe, 0x01, 1), to: v6(0x20, 0x44, 65535) };
    let encoded = serialize_send_info(si).unwrap();
    assert_eq!(encoded[0], 0xAA);
    assert_eq!(encoded[1], 36);
    assert_eq!(encoded.len(), 38);
    let decoded = parse_send_info(&encoded[2..], encoded[1] as usize).unwrap();
    assert_eq!(decoded, si);
}

#[test]
fn decode_send_info_rejects_bad_lengths() {
    let buf = [0u8; 64];
    for len in [0usize, 1, 6, 11, 13, 18, 24, 35, 37, 64] {
        let r = parse_send_info(&buf, len);
        assert_eq!(r, Err(IceError::AddressParseFailed));
    }
}

#[test]
fn mixed_family_pair_is_not_decodable() {
    // A v4 `from` with a v6 `to` serializes to 24 bytes, a length the
    // decoder refuses: mixed pairs are unrepresentable on the wire.
    let si = SendInfo { from: v4(1, 2, 3, 4, 5), to: v6(9, 9, 9) };
    let encoded = serialize_send_info(si).unwrap();
    assert_eq!(encoded[1], 24);
    let r = parse_send_info(&encoded[2..], 24);
    assert_eq!(r, Err(IceError::AddressParseFailed));
}
