use ping_codec::checksum::checksum;
use ping_codec::ipv4::icmp::calculate_checksum;
use ping_codec::ipv4::internet_packet::calculate_ipv4_checksum;

#[test]
fn checksum_of_nothing_is_all_ones() {
    assert_eq!(checksum(&[]), 0xFFFF);
}

#[test]
fn checksum_of_a_textbook_sequence() {
    // Words 0x0001, 0xf203, 0xf4f5, 0xf6f7 sum to 0x2ddf0, which folds to
    // 0xddf2.
    let bytes = [0x00, 0x01, 0xf2, 0x03, 0xf4, 0xf5, 0xf6, 0xf7];
    assert_eq!(checksum(&bytes), 0x220d);
}

#[test]
fn checksum_pads_an_odd_tail_on_the_right() {
    // 0x0102 + 0x0300 = 0x0402.
    assert_eq!(checksum(&[1, 2, 3]), 0xfbfd);
    assert_eq!(checksum(&[0xab]), 0x54ff);
    assert_eq!(checksum(&[1, 2, 3]), checksum(&[1, 2, 3, 0]));
}

#[test]
fn checksum_folds_the_carry_back() {
    // 0xffff + 0xffff + 0x0002 = 0x20000, which folds to 0x0002.
    assert_eq!(checksum(&[0xff, 0xff, 0xff, 0xff, 0x00, 0x02]), 0xfffd);
}

#[test]
fn checksum_of_a_long_buffer_does_not_overflow() {
    let even = vec![0xffu8; 300_000];
    assert_eq!(checksum(&even), 0x0000);
    let odd = vec![0xffu8; 300_001];
    assert_eq!(checksum(&odd), 0x00ff);
}

#[test]
fn checksum_of_a_real_ipv4_header() {
    let header = vec![
        0x45, 0x00, 0x00, 0x73, 0x00, 0x00, 0x40, 0x00, 0x40, 0x11, 0x00, 0x00, 0xc0, 0xa8, 0x00,
        0x01, 0xc0, 0xa8, 0x00, 0xc7,
    ];
    assert_eq!(calculate_ipv4_checksum(header), 0xb861);
}

#[test]
fn checksum_verifies_once_written_into_its_field() {
    let mut header = vec![
        0x45, 0x00, 0x00, 0x73, 0x00, 0x00, 0x40, 0x00, 0x40, 0x11, 0x00, 0x00, 0xc0, 0xa8, 0x00,
        0x01, 0xc0, 0xa8, 0x00, 0xc7,
    ];
    let sum = calculate_ipv4_checksum(header.clone());
    header[10] = (sum >> 8) as u8;
    header[11] = (sum & 0xff) as u8;
    assert_eq!(calculate_ipv4_checksum(header), 0x0000);
}

#[test]
fn both_checksum_entry_points_agree() {
    let bytes: Vec<u8> = (0..=255u8).collect();
    assert_eq!(calculate_checksum(&bytes), checksum(&bytes));
    assert_eq!(calculate_ipv4_checksum(bytes.clone()), checksum(&bytes));
}
