use rust_kernel::net::arp::ArpCache;
use rust_kernel::net::checksum;
use rust_kernel::net::ethernet::MacAddress;
use rust_kernel::net::ip::{IpPacket, Ipv4Address, Ipv4Header};
use rust_kernel::net::udp::{bind, send_to, UdpSocket, UdpSockets};
use rust_kernel::net::NetworkStats;

#[test]
fn udp_send_without_peer_fails() {
    let cache = ArpCache::new();
    let mut stats = NetworkStats::new();
    let socket = UdpSocket::new(5000);
    let r = socket.send(&cache, &mut stats, vec![1, 2, 3]);
    assert!(matches!(r, Err(e) if e == "No remote address bound"));
    assert_eq!(stats.packets_sent, 0);
    assert_eq!(stats.bytes_sent, 0);
}

#[test]
fn udp_send_to_bound_broadcast_peer_frames_datagram() {
    let cache = ArpCache::new();
    let mut stats = NetworkStats::new();
    let mut socket = UdpSocket::new(5000);
    socket.bind_remote(Ipv4Address::broadcast(), 53);
    let frame = socket.send(&cache, &mut stats, vec![1, 2, 3]).unwrap();
    assert_eq!(frame.header.dest_mac, MacAddress::broadcast());
    assert_eq!(frame.payload.len(), 20 + 8 + 3);
    assert_eq!(frame.payload[0], 0x45);
    assert_eq!(frame.payload[9], 17);
    assert_eq!(&frame.payload[12..16], &[192, 168, 1, 100]);
    assert_eq!(&frame.payload[16..20], &[255, 255, 255, 255]);
    assert_eq!(&frame.payload[28..], &[1, 2, 3]);
    assert_eq!(stats.packets_sent, 1);
    assert_eq!(stats.bytes_sent, 14 + 31);
}

#[test]
fn udp_send_to_unresolved_host_fails() {
    let cache = ArpCache::new();
    let mut stats = NetworkStats::new();
    let socket = UdpSocket::new(5000);
    let r = socket.send_to(&cache, &mut stats, &[9], Ipv4Address::new(10, 0, 0, 1), 53);
    assert!(matches!(r, Err(e) if e == "ARP resolution failed"));
    assert_eq!(stats.packets_sent, 0);
}

#[test]
fn udp_free_send_to_uses_bound_socket() {
    let cache = ArpCache::new();
    let mut stats = NetworkStats::new();
    let mut sockets: UdpSockets = UdpSockets::new();
    let missing = send_to(&sockets, &cache, &mut stats, 7000, vec![1], Ipv4Address::broadcast(), 9);
    assert!(matches!(missing, Err(e) if e == "Socket not found"));
    assert!(bind(&mut sockets, 7000).is_ok());
    let frame = send_to(&sockets, &cache, &mut stats, 7000, vec![4, 5], Ipv4Address::broadcast(), 9).unwrap();
    assert_eq!(&frame.payload[28..], &[4, 5]);
    assert_eq!(stats.packets_sent, 1);
}

#[test]
fn checksum_appended_makes_zero() {
    let data: Vec<u8> = vec![0x45, 0x00, 0x00, 0x1c, 0x12, 0x34, 0x40, 0x00];
    let c = checksum(&data);
    let mut all = data.clone();
    all.extend_from_slice(&c.to_be_bytes());
    assert_eq!(checksum(&all), 0);
}

#[test]
fn new_header_verifies_and_packet_round_trips() {
    let src = Ipv4Address::new(10, 0, 0, 2);
    let dst = Ipv4Address::new(10, 0, 0, 3);
    let h = Ipv4Header::new(src, dst, 6, 5);
    assert!(h.verify_checksum());
    assert_eq!(h.version(), 4);
    assert_eq!(h.header_len(), 20);
    assert_eq!(h.total_length(), 25);
    let p = IpPacket::new(src, dst, 17, vec![1, 2, 3, 4, 5]);
    let q = IpPacket::from_bytes(&p.to_bytes()).unwrap();
    assert_eq!(q.payload, vec![1, 2, 3, 4, 5]);
    assert_eq!(q.header.protocol, 17);
    assert_eq!(q.header.src_addr, src);
    assert_eq!(q.header.dst_addr, dst);
}
