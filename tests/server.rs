use vpn::protocol::HandshakeInitiation;
use vpn::server::{classify, Endpoint, MessageKind, Server};

fn a() -> Endpoint {
    Endpoint::V4 { ip: 0x0A00_0001, port: 1111 }
}

fn b() -> Endpoint {
    Endpoint::V4 { ip: 0x0A00_0002, port: 2222 }
}

#[test]
fn response_hex() {
    let mut server = Server::new([0x42; 32]);
    let init = HandshakeInitiation::new(12345, [0xAA; 32]).to_bytes();
    let reply = server.handle_datagram(&init, a()).unwrap();
    assert_eq!(reply.len(), 37);
    assert_eq!(&reply[..5], &[0x02, 0x39, 0x30, 0x00, 0x00]);
    assert_eq!(&reply[5..], &[0x42; 32]);
    let peer = server.peer(12345).unwrap();
    assert_eq!(peer.addr, a());
    assert_eq!(peer.client_index, 12345);
    assert_eq!(peer.client_ephem, [0xAA; 32]);
}

#[test]
fn demux_drop_truncated() {
    let mut server = Server::new([0x42; 32]);
    let reply = server.handle_datagram(&[0x01, 0x00, 0x00, 0x00, 0x00], a());
    assert!(reply.is_none());
    assert_eq!(server.peer_count(), 0);
    assert!(server.peer(0).is_none());
}

#[test]
fn unknown_type_dropped() {
    let mut server = Server::new([0x42; 32]);
    let mut pkt = [0u8; 37];
    pkt[0] = 0x03;
    assert!(server.handle_datagram(&pkt, a()).is_none());
    assert_eq!(server.peer_count(), 0);
}

#[test]
fn data_and_empty_datagrams_dropped() {
    let mut server = Server::new([0x42; 32]);
    let mut pkt = [0u8; 37];
    pkt[0] = 0x04;
    assert!(server.handle_datagram(&pkt, a()).is_none());
    assert!(server.handle_datagram(&[], a()).is_none());
    assert_eq!(server.peer_count(), 0);
}

#[test]
fn duplicate_index() {
    let mut server = Server::new([0x42; 32]);
    let first = HandshakeInitiation::new(7, [0x01; 32]).to_bytes();
    let second = HandshakeInitiation::new(7, [0x02; 32]).to_bytes();
    assert!(server.handle_datagram(&first, a()).is_some());
    assert!(server.handle_datagram(&second, b()).is_some());
    assert_eq!(server.peer_count(), 1);
    let peer = server.peer(7).unwrap();
    assert_eq!(peer.addr, b());
    assert_eq!(peer.client_ephem, [0x02; 32]);
}

#[test]
fn distinct_indices_kept_apart() {
    let mut server = Server::new([0x42; 32]);
    let v6 = Endpoint::V6 { ip6: 1, port: 3333 };
    server.handle_datagram(&HandshakeInitiation::new(1, [0x01; 32]).to_bytes(), a());
    server.handle_datagram(&HandshakeInitiation::new(2, [0x02; 32]).to_bytes(), v6);
    assert_eq!(server.peer_count(), 2);
    assert_eq!(server.peer(1).unwrap().addr, a());
    assert_eq!(server.peer(2).unwrap().addr, v6);
    assert_eq!(server.public_key(), [0x42; 32]);
}

#[test]
fn classify_by_first_byte() {
    assert_eq!(classify(&[]), MessageKind::Unknown);
    assert_eq!(classify(&[0x01]), MessageKind::Initiation);
    assert_eq!(classify(&[0x02, 0x00]), MessageKind::Response);
    assert_eq!(classify(&[0x04]), MessageKind::Data);
    assert_eq!(classify(&[0x03]), MessageKind::Unknown);
}
