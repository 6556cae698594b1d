//! The boundary to the `stun` crate: the message type is declared opaque, and
//! each call the transaction logic needs stands behind one trusted wrapper.
//! Everything that can be checked about the bytes around these calls is
//! checked in `transaction`; the wrappers state only what the `stun` crate's
//! own source shows.

use vstd::prelude::*;
use crate::endpoint::{IpAddress, SocketEndpoint};
use crate::error::IceError;

verus! {

/// `stun::message::Message` carried through opaquely: the logic never reads
/// its fields, only hands it between the trusted calls below.
#[verifier::external_type_specification]
#[verifier::external_body]
pub struct ExMessage(stun::message::Message);

/// Relies on `stun::message::Message::build` with `BINDING_REQUEST` and a
/// fresh `TransactionId`: both setters are infallible, so the call always
/// returns the 20-byte STUN header — type bytes 0x0001, a zero length field,
/// the magic cookie 0x2112A442, then a random transaction id. The id is
/// random, so beyond success only what holds of every outcome is stated.
#[verifier::external_body]
pub fn new_binding_request() -> (r: Result<Vec<u8>, IceError>)
    ensures
        r is Ok,
        r matches Ok(v) ==> {
            &&& v@.len() == 20
            &&& v@[0] == 0x00u8
            &&& v@[1] == 0x01u8
            &&& v@[2] == 0x00u8
            &&& v@[3] == 0x00u8
            &&& v@[4] == 0x21u8
            &&& v@[5] == 0x12u8
            &&& v@[6] == 0xa4u8
            &&& v@[7] == 0x42u8
        },
{
    let mut request = stun::message::Message::new();
    match request.build(
        &[
            Box::new(stun::message::BINDING_REQUEST),
            Box::new(stun::agent::TransactionId::new()),
        ],
    ) {
        Ok(()) => Ok(request.raw),
        Err(_) => Err(IceError::StunDecodeFailed),
    }
}

/// Whether the `stun` crate's decoder accepts exactly these bytes. Decoding
/// reads nothing but the buffer, so acceptance is a function of the bytes
/// alone; the full condition (header, cookie, attribute framing) is left to
/// the crate that defines it.
pub uninterp spec fn stun_decodes(data: Seq<u8>) -> bool;

/// Relies on `stun::message::Message::unmarshal_binary`: it copies the given
/// bytes in and decodes them, failing on anything shorter than the 20-byte
/// header, on a bad magic cookie, or on truncated attributes — a verdict
/// that depends on the bytes alone, named `stun_decodes`.
#[verifier::external_body]
pub fn decode_message(data: &[u8]) -> (r: Result<stun::message::Message, IceError>)
    ensures
        r is Ok <==> stun_decodes(data@),
        r is Ok ==> data@.len() >= 20,
        r matches Err(e) ==> e == IceError::StunDecodeFailed,
{
    let mut m = stun::message::Message::new();
    match m.unmarshal_binary(data) {
        Ok(()) => Ok(m),
        Err(_) => Err(IceError::StunDecodeFailed),
    }
}

/// Relies on `stun::xoraddr::XorMappedAddress::get_from_as`: it reads the
/// XOR-MAPPED-ADDRESS attribute of the message, un-XORs it against the magic
/// cookie and transaction id, and fails when the attribute is absent or
/// malformed. The body only converts the resulting address to octets.
#[verifier::external_body]
pub fn xor_mapped_address_of(m: &stun::message::Message) -> (r: Result<SocketEndpoint, IceError>) {
    let mut addr = stun::xoraddr::XorMappedAddress::default();
    if addr.get_from_as(m, stun::attributes::ATTR_XORMAPPED_ADDRESS).is_err() {
        return Err(IceError::StunDecodeFailed);
    }
    let ip = match addr.ip {
        core::net::IpAddr::V4(v4) => IpAddress::V4(v4.octets()),
        core::net::IpAddr::V6(v6) => IpAddress::V6(v6.octets()),
    };
    Ok(SocketEndpoint { ip, port: addr.port })
}

/// Relies on `stun::textattrs::TextAttribute::get_from_as` with
/// `ATTR_USERNAME`: it returns the message's USERNAME attribute as text, or
/// fails when the attribute is absent.
#[verifier::external_body]
fn username_of(m: &stun::message::Message) -> (r: Result<String, IceError>)
    ensures
        r matches Err(e) ==> e == IceError::StunDecodeFailed,
{
    match stun::textattrs::TextAttribute::get_from_as(m, stun::attributes::ATTR_USERNAME) {
        Ok(attr) => Ok(attr.text),
        Err(_) => Err(IceError::StunDecodeFailed),
    }
}

/// Relies on `stun::integrity::MessageIntegrity::check`: it recomputes the
/// HMAC of the message under `key` and fails when the MESSAGE-INTEGRITY
/// attribute is absent or does not match.
#[verifier::external_body]
pub fn assert_inbound_message_integrity(m: &mut stun::message::Message, key: &[u8]) -> (r: Result<
    (),
    IceError,
>) {
    let attr = stun::integrity::MessageIntegrity(key.to_vec());
    match attr.check(m) {
        Ok(()) => Ok(()),
        Err(_) => Err(IceError::StunDecodeFailed),
    }
}

/// The username rule itself, over the attribute text as a plain value:
/// accepted exactly when the inbound text equals the expected one, and a
/// difference is always the mismatch error.
pub fn check_username(actual: &str, expected: &str) -> (r: Result<(), IceError>)
    ensures
        r is Ok <==> actual@ == expected@,
        r is Err ==> r == Err::<(), IceError>(IceError::MismatchUsername),
{
    let a = actual.to_owned();
    let e = expected.to_owned();
    if a == e {
        Ok(())
    } else {
        Err(IceError::MismatchUsername)
    }
}

/// Accepts the message only when it carries a USERNAME attribute equal to
/// `expected_username`: absence decodes to `StunDecodeFailed`, a present but
/// different username to `MismatchUsername`. The attribute text is an
/// outside result; the rule applied to it is `check_username`.
pub fn assert_inbound_username(m: &stun::message::Message, expected_username: &str) -> (r: Result<
    (),
    IceError,
>)
    ensures
        r matches Err(e) ==> (e == IceError::StunDecodeFailed || e
            == IceError::MismatchUsername),
{
    let username = username_of(m)?;
    check_username(username.as_str(), expected_username)
}

} // verus!
