//! Core of a NAT-traversal transport layer for an ICE agent: the relay
//! encapsulation wire protocol, the STUN binding-request transaction logic,
//! the agent/relay command mailbox, and local candidate discovery.

pub mod codec;
pub mod discovery;
pub mod endpoint;
pub mod error;
pub mod mailbox;
pub mod stun_msg;
pub mod transaction;
