use ping_codec::error::CodecError;
use ping_codec::ethernet_frame::{
    EthernetFrame, BROADCAST_ADDRESS, ETHER_TYPE_IPV4, LOCAL_ADDRESS,
};
use ping_codec::ipv4::icmp::ICMPPacket;
use ping_codec::ipv4::internet_packet::IPV4;

fn datagram() -> IPV4 {
    IPV4::new_icmp_from_ip(ICMPPacket::new_echo_request(1, 0x1234, 1_700_000_000, 5), 64)
}

#[test]
fn all_zero_header_without_payload_is_truncated() {
    assert_eq!(EthernetFrame::from_bytes(&[0; 14]), Err(CodecError::TruncatedBuffer));
}

#[test]
fn ethernet_decode_rejects_short_buffers() {
    assert_eq!(EthernetFrame::from_bytes(&[]), Err(CodecError::TruncatedBuffer));
    assert_eq!(EthernetFrame::from_bytes(&[0; 13]), Err(CodecError::TruncatedBuffer));
    assert_eq!(EthernetFrame::from_bytes(&[0; 33]), Err(CodecError::TruncatedBuffer));
    assert_eq!(EthernetFrame::from_bytes(&[0; 34]), Err(CodecError::TruncatedBuffer));
    assert_eq!(EthernetFrame::from_bytes(&[0; 41]), Err(CodecError::TruncatedBuffer));
    assert!(EthernetFrame::from_bytes(&[0; 42]).is_ok());
}

#[test]
fn new_ether_broadcasts_ipv4_from_the_local_address() {
    let frame = EthernetFrame::new_ether(datagram());
    assert_eq!(frame.destination_address, [0xff; 6]);
    assert_eq!(frame.destination_address, BROADCAST_ADDRESS);
    assert_eq!(frame.source_address, [0x3c, 0x06, 0x30, 0x36, 0x61, 0x6c]);
    assert_eq!(frame.source_address, LOCAL_ADDRESS);
    assert_eq!(frame.ether_type, [0x08, 0x00]);
    assert_eq!(frame.ether_type, ETHER_TYPE_IPV4);
    assert_eq!(frame.packet, datagram());
}

#[test]
fn ethernet_encodes_header_then_payload() {
    let frame = EthernetFrame::new_ether(datagram());
    let bytes = frame.to_bytes();
    assert_eq!(bytes.len(), 14 + 40);
    assert_eq!(&bytes[0..6], &[0xff; 6]);
    assert_eq!(&bytes[6..12], &[0x3c, 0x06, 0x30, 0x36, 0x61, 0x6c]);
    assert_eq!(&bytes[12..14], &[0x08, 0x00]);
    assert_eq!(&bytes[14..], &datagram().to_bytes()[..]);
}

#[test]
fn whole_packet_has_every_field_at_its_offset() {
    let bytes = EthernetFrame::new_ether(datagram()).to_bytes();
    assert_eq!(bytes[14], 0x45);
    assert_eq!(&bytes[16..18], &[0, 40]);
    assert_eq!(bytes[22], 64);
    assert_eq!(bytes[23], 1);
    assert_eq!(&bytes[26..30], &[172, 16, 67, 126]);
    assert_eq!(&bytes[30..34], &[142, 251, 35, 174]);
    assert_eq!(bytes[34], 8);
    assert_eq!(bytes[35], 0);
    assert_eq!(&bytes[38..40], &[0x12, 0x34]);
    assert_eq!(&bytes[40..42], &[0, 1]);
    assert_eq!(&bytes[42..], &[0, 0, 0, 0, 101, 83, 241, 0, 0, 0, 0, 5]);
}

#[test]
fn ethernet_round_trip() {
    let frame = EthernetFrame {
        destination_address: [1, 2, 3, 4, 5, 6],
        source_address: [7, 8, 9, 10, 11, 12],
        ether_type: [0x86, 0xdd],
        packet: datagram(),
    };
    let decoded = EthernetFrame::from_bytes(&frame.to_bytes()).unwrap();
    assert_eq!(decoded, frame);
    assert_eq!(decoded.verify(), Ok(()));
}

#[test]
fn ethernet_encoding_twice_gives_the_same_bytes() {
    let frame = EthernetFrame::new_ether(datagram());
    assert_eq!(frame.to_bytes(), frame.to_bytes());
    let decoded = EthernetFrame::from_bytes(&frame.to_bytes()).unwrap();
    assert_eq!(decoded.to_bytes(), frame.to_bytes());
}

#[test]
fn ethernet_verify_reports_a_damaged_capture() {
    let mut bytes = EthernetFrame::new_ether(datagram()).to_bytes();
    bytes[22] = 63;
    let decoded = EthernetFrame::from_bytes(&bytes).unwrap();
    assert_eq!(decoded.packet.ttl, 63);
    assert_eq!(decoded.verify(), Err(CodecError::ChecksumMismatch));
    let mut bytes = EthernetFrame::new_ether(datagram()).to_bytes();
    bytes[50] ^= 0xff;
    let decoded = EthernetFrame::from_bytes(&bytes).unwrap();
    assert_eq!(decoded.verify(), Err(CodecError::ChecksumMismatch));
}

#[test]
fn ethernet_render_shows_every_field() {
    let frame = EthernetFrame::new_ether(datagram());
    let text = frame.render();
    let head = "ETHER: -----Ether Header-----\n\
                ETHER:\n\
                ETHER: Destination= ff:ff:ff:ff:ff:ff\n\
                ETHER: Source     = 3c:06:30:36:61:6c\n\
                ETHER: Ethertype  = 0x0800\n\
                ETHER: -----Ether Header-----\n\
                \n\
                Packet: \n";
    assert_eq!(text, format!("{}{}", head, frame.packet.render()));
}
