use stun::agent::TransactionId;
use stun::attributes::{ATTR_USERNAME, ATTR_XORMAPPED_ADDRESS};
use stun::integrity::MessageIntegrity;
use stun::message::{Message, Setter, BINDING_REQUEST, BINDING_SUCCESS};
use stun::textattrs::TextAttribute;

use ice::codec::serialize_socket_addr;
use ice::endpoint::{IpAddress, SocketEndpoint};
use ice::error::IceError;
use ice::stun_msg::{
    assert_inbound_message_integrity, assert_inbound_username, check_username,
    new_binding_request, xor_mapped_address_of,
};
use ice::transaction::{
    classify_response, effective_timeout_ms, prepare_stun_request, process_stun_reply,
    relay_endpoint, MAX_MESSAGE_SIZE, RELAYED_RESPONSE_PACKET_TYPE,
};

fn v4(a: u8, b: u8, c: u8, d: u8, port: u16) -> SocketEndpoint {
    SocketEndpoint { ip: IpAddress::V4([a, b, c, d]), port }
}

fn sample_response_bytes() -> Vec<u8> {
    let mut m = Message::new();
    m.build(&[Box::new(BINDING_SUCCESS), Box::new(TransactionId::new())])
        .unwrap();
    m.raw.clone()
}

#[test]
fn binding_request_has_stun_header() {
    let req = new_binding_request().unwrap();
    assert_eq!(req.len(), 20);
    assert_eq!(&req[0..4], &[0x00, 0x01, 0x00, 0x00]);
    assert_eq!(&req[4..8], &[0x21, 0x12, 0xa4, 0x42]);
}

#[test]
fn prepared_request_is_frame_then_stun() {
    let local = v4(192, 168, 0, 2, 40000);
    let server = v4(8, 8, 8, 8, 3478);
    let out = prepare_stun_request(local, server).unwrap();
    assert_eq!(out.len(), 14 + 20);
    assert_eq!(out[0], 0xAA);
    assert_eq!(out[1], 12);
    assert_eq!(&out[2..8], &serialize_socket_addr(local)[..]);
    assert_eq!(&out[8..14], &serialize_socket_addr(server)[..]);
    assert_eq!(&out[14..16], &[0x00, 0x01]);
    assert_eq!(&out[18..22], &[0x21, 0x12, 0xa4, 0x42]);
}

#[test]
fn relayed_and_direct_replies_decode_alike() {
    let stun_bytes = sample_response_bytes();
    let (direct_msg, direct_local) =
        process_stun_reply(&stun_bytes, stun_bytes.len()).unwrap();
    assert_eq!(direct_local, SocketEndpoint { ip: IpAddress::V4([0, 0, 0, 0]), port: 0 });

    let from = v4(8, 8, 8, 8, 3478);
    let to = v4(192, 168, 0, 2, 40000);
    let mut framed = vec![RELAYED_RESPONSE_PACKET_TYPE, 12];
    framed.extend_from_slice(&serialize_socket_addr(from));
    framed.extend_from_slice(&serialize_socket_addr(to));
    framed.extend_from_slice(&stun_bytes);
    let (relayed_msg, relayed_local) = process_stun_reply(&framed, framed.len()).unwrap();

    // Same STUN message either way; the relayed frame resolves the local
    // address to the header pair's `to` endpoint.
    assert_eq!(relayed_msg, direct_msg);
    assert_eq!(relayed_local, to);
}

#[test]
fn classification_strips_exactly_the_header() {
    let payload = sample_response_bytes();
    let from = v4(1, 1, 1, 1, 1);
    let to = v4(2, 2, 2, 2, 2);
    let mut framed = vec![0xCC, 12];
    framed.extend_from_slice(&serialize_socket_addr(from));
    framed.extend_from_slice(&serialize_socket_addr(to));
    framed.extend_from_slice(&payload);
    let (sb, local) = classify_response(&framed, framed.len()).unwrap();
    assert_eq!(sb, payload);
    assert_eq!(local, to);
}

#[test]
fn malformed_relay_frames_are_rejected() {
    // Unsupported header length.
    let mut bad = vec![0xCC, 13];
    bad.extend_from_slice(&[0u8; 40]);
    assert_eq!(
        process_stun_reply(&bad, bad.len()).unwrap_err(),
        IceError::AddressParseFailed
    );
    // Header length that does not fit the received byte count.
    let short = vec![0xCC, 36, 0, 0];
    assert_eq!(
        process_stun_reply(&short, short.len()).unwrap_err(),
        IceError::AddressParseFailed
    );
    // Marker alone.
    let marker = vec![0xCC];
    assert_eq!(
        process_stun_reply(&marker, marker.len()).unwrap_err(),
        IceError::AddressParseFailed
    );
}

#[test]
fn garbage_direct_buffer_fails_stun_decode() {
    let junk = vec![0x55u8; 8];
    assert_eq!(
        process_stun_reply(&junk, junk.len()).unwrap_err(),
        IceError::StunDecodeFailed
    );
}

#[test]
fn xor_mapped_address_is_unobfuscated() {
    let mut m = Message::new();
    m.build(&[Box::new(BINDING_SUCCESS), Box::new(TransactionId::new())])
        .unwrap();
    // XOR-MAPPED-ADDRESS for 203.0.113.5:31337: family 1, port and address
    // XORed against the magic cookie 0x2112A442.
    m.add(
        ATTR_XORMAPPED_ADDRESS,
        &[0x00, 0x01, 0x5b, 0x7b, 0xea, 0x12, 0xd5, 0x47],
    );
    let e = xor_mapped_address_of(&m).unwrap();
    assert_eq!(e, v4(203, 0, 113, 5, 31337));
}

#[test]
fn missing_xor_mapped_address_fails() {
    let mut m = Message::new();
    m.build(&[Box::new(BINDING_REQUEST), Box::new(TransactionId::new())])
        .unwrap();
    assert_eq!(xor_mapped_address_of(&m).unwrap_err(), IceError::StunDecodeFailed);
}

#[test]
fn inbound_username_is_checked() {
    let mut m = Message::new();
    m.build(&[Box::new(BINDING_REQUEST), Box::new(TransactionId::new())])
        .unwrap();
    let user = TextAttribute { attr: ATTR_USERNAME, text: "remote:local".to_string() };
    user.add_to(&mut m).unwrap();
    assert_eq!(assert_inbound_username(&m, "remote:local"), Ok(()));
    assert_eq!(
        assert_inbound_username(&m, "someone:else").unwrap_err(),
        IceError::MismatchUsername
    );
}

#[test]
fn username_rule_is_ok_iff_equal() {
    assert_eq!(check_username("remote:local", "remote:local"), Ok(()));
    assert_eq!(check_username("", ""), Ok(()));
    assert_eq!(
        check_username("remote:local", "other").unwrap_err(),
        IceError::MismatchUsername
    );
    assert_eq!(check_username("", "x").unwrap_err(), IceError::MismatchUsername);
}

#[test]
fn absent_username_fails_decode() {
    let mut m = Message::new();
    m.build(&[Box::new(BINDING_REQUEST), Box::new(TransactionId::new())])
        .unwrap();
    assert_eq!(
        assert_inbound_username(&m, "anyone").unwrap_err(),
        IceError::StunDecodeFailed
    );
}

#[test]
fn message_integrity_is_checked() {
    let mut m = Message::new();
    m.build(&[Box::new(BINDING_REQUEST), Box::new(TransactionId::new())])
        .unwrap();
    let integrity = MessageIntegrity::new_short_term_integrity("secret".to_string());
    integrity.add_to(&mut m).unwrap();
    assert_eq!(assert_inbound_message_integrity(&mut m, &integrity.0), Ok(()));
    let wrong = MessageIntegrity::new_short_term_integrity("other".to_string());
    assert_eq!(
        assert_inbound_message_integrity(&mut m, &wrong.0).unwrap_err(),
        IceError::StunDecodeFailed
    );
}

#[test]
fn timeout_gets_grace_and_zero_waits_forever() {
    assert_eq!(effective_timeout_ms(0), None);
    assert_eq!(effective_timeout_ms(5000), Some(5200));
    assert_eq!(effective_timeout_ms(1), Some(201));
}

#[test]
fn relay_endpoint_is_fixed_loopback() {
    assert_eq!(relay_endpoint(), v4(127, 0, 0, 1, 12345));
    assert_eq!(MAX_MESSAGE_SIZE, 1280);
}
