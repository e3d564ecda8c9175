use ping_codec::error::CodecError;
use ping_codec::ipv4::icmp::{
    calculate_checksum, time_to_bytes, ICMPPacket, ECHO_REPLY, ECHO_REQUEST,
};

fn sample() -> ICMPPacket {
    ICMPPacket {
        packet_type: 8,
        code: 0,
        checksum: 0,
        identifier: 0x1234,
        sequence: 1,
        data: vec![0; 12],
    }
}

#[test]
fn echo_request_of_twelve_zero_bytes_encodes_to_twenty_bytes() {
    let message = sample();
    let bytes = message.to_bytes();
    assert_eq!(bytes.len(), 20);
    assert_eq!(message.len(), 20);
    assert_eq!(
        bytes,
        vec![8, 0, 0xe5, 0xca, 0x12, 0x34, 0, 1, 0, 0, 0, 0, 0, 0, 0, 0, 0, 0, 0, 0]
    );
}

#[test]
fn echo_request_of_twelve_zero_bytes_has_checksum_e5ca() {
    let mut message = sample();
    assert_eq!(message.compute_checksum(), 0xe5ca);
    let zeroed = vec![8, 0, 0, 0, 0x12, 0x34, 0, 1, 0, 0, 0, 0, 0, 0, 0, 0, 0, 0, 0, 0];
    assert_eq!(calculate_checksum(&zeroed), 0xe5ca);
    message.assign_checksum();
    assert_eq!(message.checksum, 0xe5ca);
}

#[test]
fn encoded_message_checksums_to_zero() {
    let message = ICMPPacket {
        packet_type: 0,
        code: 0,
        checksum: 0x9999,
        identifier: 0xffff,
        sequence: 0xffff,
        data: vec![0xff, 0xfe, 0x01],
    };
    assert_eq!(calculate_checksum(&message.to_bytes()), 0);
    assert_eq!(calculate_checksum(&sample().to_bytes()), 0);
}

#[test]
fn encoding_ignores_a_stale_checksum() {
    let mut stale = sample();
    stale.checksum = 0xdead;
    assert_eq!(stale.to_bytes(), sample().to_bytes());
}

#[test]
fn encoding_twice_gives_the_same_bytes() {
    let message = sample();
    assert_eq!(message.to_bytes(), message.to_bytes());
    let again = ICMPPacket::from_bytes(&message.to_bytes()).unwrap();
    assert_eq!(again.to_bytes(), message.to_bytes());
}

#[test]
fn icmp_round_trip() {
    let mut message = ICMPPacket {
        packet_type: 8,
        code: 0,
        checksum: 0,
        identifier: 0xbeef,
        sequence: 513,
        data: vec![1, 2, 3, 4, 5],
    };
    message.assign_checksum();
    let decoded = ICMPPacket::from_bytes(&message.to_bytes()).unwrap();
    assert_eq!(decoded, message);
}

#[test]
fn icmp_round_trip_repairs_only_the_checksum() {
    let mut message = sample();
    message.checksum = 7;
    let decoded = ICMPPacket::from_bytes(&message.to_bytes()).unwrap();
    assert_ne!(decoded, message);
    message.checksum = 0xe5ca;
    assert_eq!(decoded, message);
}

#[test]
fn icmp_decode_reads_fixed_offsets() {
    let bytes = [0, 3, 0xab, 0xcd, 0x01, 0x02, 0x03, 0x04, 9, 8, 7];
    let message = ICMPPacket::from_bytes(&bytes).unwrap();
    assert_eq!(message.packet_type, ECHO_REPLY);
    assert_eq!(message.code, 3);
    assert_eq!(message.checksum, 0xabcd);
    assert_eq!(message.identifier, 0x0102);
    assert_eq!(message.sequence, 0x0304);
    assert_eq!(message.data, vec![9, 8, 7]);
}

#[test]
fn icmp_decode_accepts_a_bare_header() {
    let message = ICMPPacket::from_bytes(&[8, 0, 0, 0, 0, 0, 0, 0]).unwrap();
    assert_eq!(message.data, Vec::<u8>::new());
    assert_eq!(message.len(), 8);
}

#[test]
fn icmp_decode_rejects_short_buffers() {
    assert_eq!(ICMPPacket::from_bytes(&[]), Err(CodecError::TruncatedBuffer));
    assert_eq!(ICMPPacket::from_bytes(&[8, 0, 0, 0, 0, 0, 0]), Err(CodecError::TruncatedBuffer));
}

#[test]
fn icmp_decode_does_not_check_the_checksum() {
    let bytes = [8, 0, 0x12, 0x34, 0, 1, 0, 2];
    let message = ICMPPacket::from_bytes(&bytes).unwrap();
    assert_eq!(message.checksum, 0x1234);
    assert!(!message.verify_checksum());
    assert_eq!(message.verify(), Err(CodecError::ChecksumMismatch));
}

#[test]
fn icmp_verify_accepts_an_encoded_message() {
    let decoded = ICMPPacket::from_bytes(&sample().to_bytes()).unwrap();
    assert!(decoded.verify_checksum());
    assert_eq!(decoded.verify(), Ok(()));
}

#[test]
fn icmp_verify_reports_a_flipped_payload_byte() {
    let mut bytes = sample().to_bytes();
    bytes[12] ^= 0x40;
    let decoded = ICMPPacket::from_bytes(&bytes).unwrap();
    assert_eq!(decoded.verify(), Err(CodecError::ChecksumMismatch));
}

#[test]
fn timestamp_record_is_twelve_big_endian_bytes() {
    assert_eq!(
        time_to_bytes(1_700_000_000, 123_456_789),
        vec![0, 0, 0, 0, 101, 83, 241, 0, 7, 91, 205, 21]
    );
    assert_eq!(time_to_bytes(0, 0), vec![0; 12]);
    assert_eq!(time_to_bytes(u64::MAX, u32::MAX), vec![0xff; 12]);
    assert_eq!(
        time_to_bytes(0x0102030405060708, 0x090a0b0c),
        vec![1, 2, 3, 4, 5, 6, 7, 8, 9, 10, 11, 12]
    );
}

#[test]
fn new_echo_request_fills_every_field() {
    let message = ICMPPacket::new_echo_request(7, 0xbeef, 1_700_000_000, 123_456_789);
    assert_eq!(message.packet_type, ECHO_REQUEST);
    assert_eq!(message.code, 0);
    assert_eq!(message.identifier, 0xbeef);
    assert_eq!(message.sequence, 7);
    assert_eq!(message.data, vec![0, 0, 0, 0, 101, 83, 241, 0, 7, 91, 205, 21]);
    assert_eq!(message.checksum, 0x0e44);
    assert_eq!(message.len(), 20);
    assert_eq!(message.verify(), Ok(()));
}

#[test]
fn echo_request_carries_any_payload() {
    let message = ICMPPacket::echo_request(1, 0x1234, vec![0; 12]);
    assert_eq!(message.packet_type, ECHO_REQUEST);
    assert_eq!(message.code, 0);
    assert_eq!(message.checksum, 0xe5ca);
    assert_eq!(message.identifier, 0x1234);
    assert_eq!(message.sequence, 1);
    assert_eq!(message.data, vec![0; 12]);
    let bare = ICMPPacket::echo_request(1, 0x1234, Vec::new());
    assert_eq!(bare.checksum, 0xe5ca);
    assert_eq!(bare.to_bytes(), vec![8, 0, 0xe5, 0xca, 0x12, 0x34, 0, 1]);
}

#[test]
fn sequence_numbers_wrap_at_sixteen_bits() {
    let last = ICMPPacket::new_echo_request(u16::MAX, 1, 0, 0);
    let first = ICMPPacket::new_echo_request(u16::MAX.wrapping_add(1), 1, 0, 0);
    assert_eq!(last.sequence, 65535);
    assert_eq!(first.sequence, 0);
    assert_eq!(&last.to_bytes()[6..8], &[0xff, 0xff]);
}

#[test]
fn icmp_render_shows_every_field() {
    let message = ICMPPacket {
        packet_type: 8,
        code: 0,
        checksum: 0xe5ca,
        identifier: 0x0234,
        sequence: 258,
        data: vec![0xab, 0x01],
    };
    assert_eq!(
        message.render(),
        "ICMP: -----ICMP Header-----\n\
         ICMP:\n\
         ICMP: type= 8\n\
         ICMP: Code= 0\n\
         ICMP: checksum= 0xe5ca\n\
         ICMP: identifier= 0x0234\n\
         ICMP: sequence= 258\n\
         ICMP: payload= ab 01\n\
         ICMP: -----ICMP Header-----\n"
    );
}
