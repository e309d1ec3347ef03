use vpn::crypto::KeyPair;
use vpn::tunnel::{bridge_step, initiation_frame, Action, Direction, Outcome, CLIENT_INDEX};

#[test]
fn bridge_pass_through() {
    let packet: Vec<u8> = (0..64u8).collect();
    let (next, action) = bridge_step(Direction::TunToUdp, Outcome::Packet(packet.clone()));
    assert_eq!(next, Direction::UdpToTun);
    let sent = match action {
        Action::Forward(p) => p,
        other => panic!("expected a forward, got {:?}", other),
    };
    // A loopback responder echoes the datagram verbatim.
    let echoed = sent.clone();
    let (next, action) = bridge_step(Direction::UdpToTun, Outcome::Packet(echoed));
    assert_eq!(next, Direction::TunToUdp);
    match action {
        Action::Forward(p) => {
            assert_eq!(p.len(), 64);
            assert_eq!(p, packet);
        }
        other => panic!("expected a forward, got {:?}", other),
    }
}

#[test]
fn bridge_idle_and_failure() {
    let (next, action) = bridge_step(Direction::TunToUdp, Outcome::Idle);
    assert_eq!(next, Direction::UdpToTun);
    assert!(matches!(action, Action::Skip));
    let (next, action) = bridge_step(Direction::UdpToTun, Outcome::Failed);
    assert_eq!(next, Direction::TunToUdp);
    assert!(matches!(action, Action::Stop));
}

#[test]
fn client_initiation_frame() {
    let f = initiation_frame(CLIENT_INDEX, [0xAA; 32]);
    assert_eq!(&f[..5], &[0x01, 0x39, 0x30, 0x00, 0x00]);
    assert_eq!(&f[5..], &[0xAA; 32]);
}

#[test]
fn generated_key_pairs_differ() {
    let k1 = KeyPair::generate().unwrap();
    let k2 = KeyPair::generate().unwrap();
    assert_ne!(k1.public_key, [0u8; 32]);
    assert_ne!(k1.public_key, k2.public_key);
}
