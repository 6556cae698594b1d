use ice::mailbox::{AgentExternal, IceCommands, MAX_STUN_DATA};
use ice::endpoint::{IpAddress, SocketEndpoint};

#[test]
fn ingress_fifo_order() {
    let mut mb = AgentExternal::new();
    // An external actor pushes three messages in order; three receives
    // yield them in the same order.
    mb.push_ingress("A".to_string());
    mb.push_ingress("B".to_string());
    mb.push_ingress("C".to_string());
    assert_eq!(mb.get_message(), Some("A".to_string()));
    assert_eq!(mb.get_message(), Some("B".to_string()));
    assert_eq!(mb.get_message(), Some("C".to_string()));
    assert_eq!(mb.get_message(), None);
}

#[test]
fn egress_fifo_order() {
    let mut mb = AgentExternal::new();
    mb.send_message("A".to_string());
    mb.send_message("B".to_string());
    mb.send_message("C".to_string());
    assert_eq!(mb.pop_egress(), Some("A".to_string()));
    assert_eq!(mb.pop_egress(), Some("B".to_string()));
    assert_eq!(mb.pop_egress(), Some("C".to_string()));
    assert_eq!(mb.pop_egress(), None);
}

#[test]
fn empty_mailbox_is_not_an_error() {
    let mut mb = AgentExternal::new();
    assert_eq!(mb.get_message(), None);
    assert_eq!(mb.pop_egress(), None);
}

#[test]
fn queues_are_independent() {
    let mut mb = AgentExternal::new();
    mb.send_message("out".to_string());
    mb.push_ingress("in".to_string());
    assert_eq!(mb.get_message(), Some("in".to_string()));
    assert_eq!(mb.pop_egress(), Some("out".to_string()));
}

#[test]
fn commands_carry_their_payloads() {
    let ep = SocketEndpoint { ip: IpAddress::V4([10, 0, 0, 2]), port: 9000 };
    let cmd = IceCommands::StunResponse { data: [0u8; MAX_STUN_DATA], len: 20, from: ep };
    match cmd {
        IceCommands::StunResponse { data, len, from } => {
            assert_eq!(data.len(), 1500);
            assert_eq!(len, 20);
            assert_eq!(from, ep);
        }
        _ => panic!("wrong variant"),
    }
}
