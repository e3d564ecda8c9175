//! The IPv4 header in front of an ICMP echo message.

use crate::byte_order::{be16, from_be16, read_u16_be};
use crate::checksum::{checksum, internet_checksum, lemma_checksum_verifies, with_word};
use crate::error::CodecError;
use crate::ipv4::icmp::{ICMPPacket, ICMPPacketView, lemma_icmp_round_trip};
use crate::text::{
    decimal, dotted_decimal, hex_byte, hex_dump, hex_u16, push_decimal, push_hex_byte,
    push_hex_dump, push_hex_u16,
};
use vstd::prelude::*;
use vstd::string::StringExecFns;

verus! {

/// The number of header bytes in front of the options.
pub const IPV4_HEADER_LEN: usize = 20;

/// Version 4 in the high nibble, a header of five 32-bit words in the low
/// one.
pub const VERSION_AND_MIN_HEADER_LEN: u8 = 0x45;

/// The most 32-bit words that options add to the header length field.
pub const MAX_OPTION_WORDS: u8 = 4;

/// The protocol number of ICMP.
pub const PROTOCOL_ICMP: u8 = 1;

/// The source address of a header built without one.
pub const DEFAULT_SOURCE: [u8; 4] = [172, 16, 67, 126];

/// The destination address of every header built here.
pub const DEFAULT_DESTINATION: [u8; 4] = [142, 251, 35, 174];

/// An IPv4 header together with the ICMP echo message it carries.
#[derive(Clone, Debug, PartialEq, Eq)]
pub struct IPV4 {
    /// Version in the high nibble, header length in 32-bit words in the low
    /// one.
    pub version_header_len: u8,
    /// Differentiated services code point and explicit congestion
    /// notification.
    pub dscp_ecn: u8,
    /// Number of bytes of header, options and payload together.
    pub total_length: u16,
    /// Identification of the datagram.
    pub identification: u16,
    /// Flags in the high three bits, fragment offset in the rest.
    pub flags_fragment_offset: u16,
    /// Time to live.
    pub ttl: u8,
    /// Protocol of the payload: 1 for ICMP.
    pub protocol: u8,
    /// Internet checksum of the header and its options, computed with this
    /// field taken as zero. The payload is not covered.
    pub header_checksum: u16,
    /// Source address.
    pub source_add: [u8; 4],
    /// Destination address.
    pub destination_add: [u8; 4],
    /// Options, if any.
    pub options: Option<Vec<u8>>,
    /// The payload.
    pub datagram: ICMPPacket,
}

/// The logical record behind an [`IPV4`].
pub struct IPV4View {
    pub version_header_len: u8,
    pub dscp_ecn: u8,
    pub total_length: u16,
    pub identification: u16,
    pub flags_fragment_offset: u16,
    pub ttl: u8,
    pub protocol: u8,
    pub header_checksum: u16,
    pub source_add: [u8; 4],
    pub destination_add: [u8; 4],
    pub options: Option<Seq<u8>>,
    pub datagram: ICMPPacketView,
}

/// Options as a logical value.
pub open spec fn options_view(options: Option<Vec<u8>>) -> Option<Seq<u8>> {
    match options {
        Some(bytes) => Some(bytes@),
        None => None,
    }
}

/// The bytes that options put on the wire: none where there are no options.
pub open spec fn options_bytes(options: Option<Seq<u8>>) -> Seq<u8> {
    match options {
        Some(bytes) => bytes,
        None => Seq::empty(),
    }
}

/// The quotient of `dividend` by `divisor`, rounded up.
pub open spec fn ceiling(dividend: nat, divisor: nat) -> nat {
    ((dividend + divisor - 1) / (divisor as int)) as nat
}

/// The number of zero bytes that bring `len` bytes of options up to a whole
/// number of 32-bit words.
pub open spec fn padding_len(len: nat) -> nat {
    ((4 - len % 4) % 4) as nat
}

/// Options filled up with zero bytes to a whole number of 32-bit words.
pub open spec fn padded_options(options: Seq<u8>) -> Seq<u8> {
    options + Seq::new(padding_len(options.len()), |i: int| 0u8)
}

/// An IPv4 address as text: in dotted decimal, then in hexadecimal between
/// parentheses.
pub open spec fn render_address(address: [u8; 4]) -> Seq<char> {
    dotted_decimal(address)
        + " (0x"@
        + hex_byte(address[0])
        + hex_byte(address[1])
        + hex_byte(address[2])
        + hex_byte(address[3])
        + ")"@
}

/// What a header built with `options` carries: the options padded to whole
/// words.
pub open spec fn carried_options(options: Option<Seq<u8>>) -> Option<Seq<u8>> {
    match options {
        Some(bytes) => Some(padded_options(bytes)),
        None => None,
    }
}

/// What options of `len` bytes add to the header length field: their length
/// in 32-bit words, but never more than [`MAX_OPTION_WORDS`]. Longer options
/// are carried whole, and the field then understates the header.
pub open spec fn option_words(len: nat) -> nat {
    if ceiling(len, 4) <= 4 {
        ceiling(len, 4)
    } else {
        4
    }
}

impl View for IPV4 {
    type V = IPV4View;

    open spec fn view(&self) -> IPV4View {
        IPV4View {
            version_header_len: self.version_header_len,
            dscp_ecn: self.dscp_ecn,
            total_length: self.total_length,
            identification: self.identification,
            flags_fragment_offset: self.flags_fragment_offset,
            ttl: self.ttl,
            protocol: self.protocol,
            header_checksum: self.header_checksum,
            source_add: self.source_add,
            destination_add: self.destination_add,
            options: options_view(self.options),
            datagram: self.datagram@,
        }
    }
}

impl IPV4View {
    /// The bytes of the header on the wire, options included, payload not.
    pub open spec fn header_bytes(self) -> Seq<u8> {
        seq![self.version_header_len, self.dscp_ecn]
            + be16(self.total_length)
            + be16(self.identification)
            + be16(self.flags_fragment_offset)
            + seq![self.ttl, self.protocol]
            + be16(self.header_checksum)
            + self.source_add@
            + self.destination_add@
            + options_bytes(self.options)
    }

    /// The bytes of the whole datagram on the wire: the header as it stands,
    /// then the encoded payload.
    pub open spec fn encode(self) -> Seq<u8> {
        self.header_bytes() + self.datagram.encode()
    }

    /// The datagram that `bytes` holds. The first twenty bytes are the
    /// header; everything after them is taken as the ICMP message, whatever
    /// the header length field says, so a decoded header has no options.
    pub open spec fn decode(bytes: Seq<u8>) -> Result<IPV4View, CodecError> {
        if bytes.len() < 20 {
            Err(CodecError::TruncatedBuffer)
        } else {
            match ICMPPacketView::decode(bytes.skip(20)) {
                Ok(datagram) => Ok(
                    IPV4View {
                        version_header_len: bytes[0],
                        dscp_ecn: bytes[1],
                        total_length: from_be16(bytes[2], bytes[3]),
                        identification: from_be16(bytes[4], bytes[5]),
                        flags_fragment_offset: from_be16(bytes[6], bytes[7]),
                        ttl: bytes[8],
                        protocol: bytes[9],
                        header_checksum: from_be16(bytes[10], bytes[11]),
                        source_add: [bytes[12], bytes[13], bytes[14], bytes[15]],
                        destination_add: [bytes[16], bytes[17], bytes[18], bytes[19]],
                        options: None,
                        datagram,
                    },
                ),
                Err(e) => Err(e),
            }
        }
    }

    /// The number of bytes of the header and its options.
    pub open spec fn header_len(self) -> nat {
        20 + options_bytes(self.options).len()
    }

    /// The number of bytes of the encoded datagram.
    pub open spec fn encoded_len(self) -> nat {
        self.header_len() + self.datagram.encoded_len()
    }

    /// Whether the total length field holds the number of bytes of the
    /// encoded datagram.
    pub open spec fn length_is_consistent(self) -> bool {
        self.total_length == self.encoded_len()
    }

    /// The same header around `datagram`.
    pub open spec fn with_datagram(self, datagram: ICMPPacketView) -> IPV4View {
        IPV4View { datagram, ..self }
    }

    /// The same datagram with `checksum` in the header checksum field.
    pub open spec fn with_checksum_field(self, checksum: u16) -> IPV4View {
        IPV4View { header_checksum: checksum, ..self }
    }

    /// The checksum the header ought to carry: that of the header bytes with
    /// the checksum field zeroed.
    pub open spec fn computed_checksum(self) -> u16 {
        internet_checksum(self.with_checksum_field(0).header_bytes())
    }

    /// The same datagram with the header checksum it ought to carry.
    pub open spec fn checksummed(self) -> IPV4View {
        self.with_checksum_field(self.computed_checksum())
    }

    /// Whether the header carries the checksum it ought to carry.
    pub open spec fn checksum_is_valid(self) -> bool {
        self.header_checksum == self.computed_checksum()
    }

    /// Whether the header and the payload both carry the checksum they ought
    /// to carry.
    pub open spec fn checksums_are_valid(self) -> bool {
        self.checksum_is_valid() && self.datagram.checksum_is_valid()
    }

    /// The options as text: their bytes in hexadecimal, or `None`.
    pub open spec fn render_options(self) -> Seq<char> {
        match self.options {
            Some(bytes) => hex_dump(bytes),
            None => " None"@,
        }
    }

    /// The datagram as text, one field to a line, the payload after the
    /// header: version and header length, the checksum and the options in
    /// hexadecimal, the addresses in dotted decimal and in hexadecimal, the
    /// rest in decimal.
    pub open spec fn render(self) -> Seq<char> {
        "IPV4: -----Packet Header-----\nIPV4: Version/Header Length: 0x"@
            + hex_byte(self.version_header_len)
            + "\nIPV4: DSCP/ECN: "@
            + decimal(self.dscp_ecn as nat)
            + "\nIPV4: Total Length: "@
            + decimal(self.total_length as nat)
            + "\nIPV4: Identification: "@
            + decimal(self.identification as nat)
            + "\nIPV4: Flags/Fragment Offset: "@
            + decimal(self.flags_fragment_offset as nat)
            + "\nIPV4: TTL: "@
            + decimal(self.ttl as nat)
            + "\nIPV4: Protocol: "@
            + decimal(self.protocol as nat)
            + "\nIPV4: Header Checksum: 0x"@
            + hex_u16(self.header_checksum)
            + "\nIPV4: Source Address: "@
            + render_address(self.source_add)
            + "\nIPV4: Destination Address: "@
            + render_address(self.destination_add)
            + "\nIPV4: Options:"@
            + self.render_options()
            + "\nIPV4: -----Packet Header-----\n\nDatagram: \n"@
            + self.datagram.render()
    }

    /// The number of bytes of a datagram built around `datagram` with
    /// `options`.
    pub open spec fn constructed_len(datagram: ICMPPacketView, options: Option<Seq<u8>>) -> nat {
        20 + options_bytes(carried_options(options)).len() + datagram.encoded_len()
    }

    /// The header built around `datagram`: version 4, a header length of
    /// five words plus those of the options, no fragmentation, the default
    /// destination, options padded to whole words, the total length of what
    /// will be encoded, and a valid header checksum.
    pub open spec fn construct(
        datagram: ICMPPacketView,
        protocol: u8,
        ttl: u8,
        options: Option<Seq<u8>>,
        source_add: [u8; 4],
    ) -> IPV4View {
        (IPV4View {
            version_header_len: (0x45 + option_words(options_bytes(options).len())) as u8,
            dscp_ecn: 0,
            total_length: IPV4View::constructed_len(datagram, options) as u16,
            identification: 0,
            flags_fragment_offset: 0,
            ttl,
            protocol,
            header_checksum: 0,
            source_add,
            destination_add: DEFAULT_DESTINATION,
            options: carried_options(options),
            datagram,
        }).checksummed()
    }
}

/// Decoding an encoded datagram that has no options gives the datagram back,
/// its payload with the checksum it ought to carry: the very same datagram,
/// if the payload's checksum was valid. One with options does not come back:
/// its options are read as the start of the payload.
pub proof fn lemma_ipv4_round_trip(packet: IPV4View)
    requires
        packet.options is None,
    ensures
        IPV4View::decode(packet.encode()) == Ok::<IPV4View, CodecError>(
            packet.with_datagram(packet.datagram.checksummed()),
        ),
        packet.datagram.checksum_is_valid() ==> IPV4View::decode(packet.encode()) == Ok::<
            IPV4View,
            CodecError,
        >(packet),
{
    let bytes = packet.encode();
    assert(bytes.skip(20) =~= packet.datagram.encode());
    lemma_icmp_round_trip(packet.datagram);
    let decoded = IPV4View::decode(bytes)->Ok_0;
    assert(decoded.source_add =~= packet.source_add);
    assert(decoded.destination_add =~= packet.destination_add);
}

/// Encoding is deterministic: the bytes depend on the logical record alone.
/// Two datagrams with the same header, whose payloads agree in every field
/// but the stored checksum, encode to the same bytes, as many as header,
/// options and payload have together; and if they have no options, the
/// datagram decoded from those bytes encodes to them again.
pub proof fn lemma_ipv4_encoding_is_deterministic(first: IPV4View, second: IPV4View)
    requires
        first.with_datagram(second.datagram) == second,
        first.datagram.with_checksum_field(0) == second.datagram.with_checksum_field(0),
    ensures
        first.encode() == second.encode(),
        first.encode().len() == first.encoded_len(),
        first.options is None ==> IPV4View::decode(first.encode())->Ok_0.encode()
            == first.encode(),
{
    if first.options is None {
        lemma_ipv4_round_trip(first);
    }
}

/// Assigning the header checksum makes it valid, and assigning it again
/// changes nothing.
pub proof fn lemma_ipv4_checksummed_is_valid(packet: IPV4View)
    ensures
        packet.checksummed().checksum_is_valid(),
        packet.checksummed().checksummed() == packet.checksummed(),
        packet.checksum_is_valid() <==> packet.checksummed() == packet,
{
}

/// The verification identity: the Internet checksum of the header bytes of a
/// datagram that carries a valid header checksum, that field included, is
/// zero.
pub proof fn lemma_ipv4_checksum_identity(packet: IPV4View)
    requires
        packet.checksum_is_valid(),
    ensures
        internet_checksum(packet.header_bytes()) == 0,
{
    let zeroed = packet.with_checksum_field(0).header_bytes();
    lemma_checksum_verifies(zeroed, 10);
    assert(packet.header_bytes() =~= with_word(zeroed, 10, packet.header_checksum));
}

/// Padded options fill whole words, begin with the options given, and end in
/// fewer than four zero bytes.
pub proof fn lemma_padded_options(options: Seq<u8>)
    ensures
        padded_options(options).len() == 4 * ceiling(options.len(), 4),
        options.len() <= padded_options(options).len() < options.len() + 4,
        padded_options(options).take(options.len() as int) == options,
        forall|i: int|
            options.len() <= i < padded_options(options).len() ==> padded_options(options)[i] == 0,
{
}

/// A constructed header tells its own length, provided that length fits the
/// 16-bit field; its checksum is valid; and its header length field is five
/// words plus those of the options, nine at most.
pub proof fn lemma_constructed_is_consistent(
    datagram: ICMPPacketView,
    protocol: u8,
    ttl: u8,
    options: Option<Seq<u8>>,
    source_add: [u8; 4],
)
    requires
        IPV4View::constructed_len(datagram, options) <= 0xFFFF,
    ensures
        IPV4View::construct(datagram, protocol, ttl, options, source_add).length_is_consistent(),
        IPV4View::construct(datagram, protocol, ttl, options, source_add).checksum_is_valid(),
        IPV4View::construct(datagram, protocol, ttl, options, source_add).version_header_len
            == 0x45 + option_words(options_bytes(options).len()),
        internet_checksum(
            IPV4View::construct(datagram, protocol, ttl, options, source_add).header_bytes(),
        ) == 0,
{
    let plain = IPV4View {
        version_header_len: (0x45 + option_words(options_bytes(options).len())) as u8,
        dscp_ecn: 0,
        total_length: IPV4View::constructed_len(datagram, options) as u16,
        identification: 0,
        flags_fragment_offset: 0,
        ttl,
        protocol,
        header_checksum: 0,
        source_add,
        destination_add: DEFAULT_DESTINATION,
        options: carried_options(options),
        datagram,
    };
    lemma_ipv4_checksum_identity(plain.checksummed());
}

impl IPV4 {
    /// Encodes the header and its options with `checksum` in place of the
    /// stored header checksum.
    fn encode_header_with(&self, checksum: u16) -> (bytes: Vec<u8>)
        ensures
            bytes@ == self@.with_checksum_field(checksum).header_bytes(),
    {
        let mut result: Vec<u8> = Vec::new();
        result.push(self.version_header_len);
        result.push(self.dscp_ecn);
        let total_length = u16_to_bytes_big_endian(self.total_length);
        result.push(total_length[0]);
        result.push(total_length[1]);
        let identification = u16_to_bytes_big_endian(self.identification);
        result.push(identification[0]);
        result.push(identification[1]);
        let flags_fragment_offset = u16_to_bytes_big_endian(self.flags_fragment_offset);
        result.push(flags_fragment_offset[0]);
        result.push(flags_fragment_offset[1]);
        result.push(self.ttl);
        result.push(self.protocol);
        let header_checksum = u16_to_bytes_big_endian(checksum);
        result.push(header_checksum[0]);
        result.push(header_checksum[1]);
        result.extend_from_slice(&self.source_add);
        result.extend_from_slice(&self.destination_add);
        match &self.options {
            Some(options) => {
                result.extend_from_slice(options.as_slice());
            },
            None => {},
        }
        result
    }

    /// Encodes the header and its options, without the payload.
    pub fn header_bytes(&self) -> (bytes: Vec<u8>)
        ensures
            bytes@ == self@.header_bytes(),
            bytes@.len() == self@.header_len(),
    {
        self.encode_header_with(self.header_checksum)
    }

    /// Encodes the datagram: the header, the options if there are any, then
    /// the encoded payload. The header checksum goes out as it stands.
    pub fn to_bytes(&self) -> (bytes: Vec<u8>)
        ensures
            bytes@ == self@.encode(),
            bytes@.len() == self@.encoded_len(),
            bytes@.take(self@.header_len() as int) == self@.header_bytes(),
            bytes@.skip(self@.header_len() as int) == self@.datagram.encode(),
    {
        let mut result = self.header_bytes();
        let payload = self.datagram.to_bytes();
        result.extend_from_slice(payload.as_slice());
        result
    }

    /// Decodes a datagram from a buffer that holds the twenty header bytes
    /// and the eight of the ICMP header; a shorter one is reported as
    /// truncated. Options are not looked for: the payload is taken to begin
    /// right after the twentieth byte. The checksums are read, not checked:
    /// see [`IPV4::verify`].
    pub fn from_bytes(bytes: &[u8]) -> (result: Result<IPV4, CodecError>)
        ensures
            bytes@.len() < 28 <==> result matches Err(CodecError::TruncatedBuffer),
            bytes@.len() >= 28 <==> result is Ok,
            result matches Ok(packet) ==> IPV4View::decode(bytes@) matches Ok(decoded)
                && decoded == packet@,
    {
        if bytes.len() < IPV4_HEADER_LEN {
            return Err(CodecError::TruncatedBuffer);
        }
        let rest = &bytes[IPV4_HEADER_LEN..bytes.len()];
        let datagram = match ICMPPacket::from_bytes(rest) {
            Ok(datagram) => datagram,
            Err(e) => {
                return Err(e);
            },
        };
        let source_add = [bytes[12], bytes[13], bytes[14], bytes[15]];
        let destination_add = [bytes[16], bytes[17], bytes[18], bytes[19]];
        let packet = IPV4 {
            version_header_len: bytes[0],
            dscp_ecn: bytes[1],
            total_length: read_u16_be(bytes, 2),
            identification: read_u16_be(bytes, 4),
            flags_fragment_offset: read_u16_be(bytes, 6),
            ttl: bytes[8],
            protocol: bytes[9],
            header_checksum: read_u16_be(bytes, 10),
            source_add,
            destination_add,
            options: None,
            datagram,
        };
        Ok(packet)
    }

    /// Renders the datagram as text for diagnostic display.
    pub fn render(&self) -> (text: String)
        ensures
            text@ == self@.render(),
    {
        let mut out = String::from_str(
            "IPV4: -----Packet Header-----\nIPV4: Version/Header Length: 0x",
        );
        push_hex_byte(&mut out, self.version_header_len);
        out.append("\nIPV4: DSCP/ECN: ");
        push_decimal(&mut out, self.dscp_ecn as u64);
        out.append("\nIPV4: Total Length: ");
        push_decimal(&mut out, self.total_length as u64);
        out.append("\nIPV4: Identification: ");
        push_decimal(&mut out, self.identification as u64);
        out.append("\nIPV4: Flags/Fragment Offset: ");
        push_decimal(&mut out, self.flags_fragment_offset as u64);
        out.append("\nIPV4: TTL: ");
        push_decimal(&mut out, self.ttl as u64);
        out.append("\nIPV4: Protocol: ");
        push_decimal(&mut out, self.protocol as u64);
        out.append("\nIPV4: Header Checksum: 0x");
        push_hex_u16(&mut out, self.header_checksum);
        out.append("\nIPV4: Source Address: ");
        push_address(&mut out, &self.source_add);
        out.append("\nIPV4: Destination Address: ");
        push_address(&mut out, &self.destination_add);
        out.append("\nIPV4: Options:");
        match &self.options {
            Some(options) => {
                push_hex_dump(&mut out, options.as_slice());
            },
            None => {
                out.append(" None");
            },
        }
        out.append("\nIPV4: -----Packet Header-----\n\nDatagram: \n");
        let payload = self.datagram.render();
        out.append(payload.as_str());
        out
    }

    /// Builds the header around `datagram`.
    ///
    /// Options are padded with zero bytes to a whole number of 32-bit words
    /// and add their words to the header length field. The field takes at
    /// most [`MAX_OPTION_WORDS`] of them: longer options are still carried
    /// whole, and the field then understates the header. Nothing reports
    /// this.
    ///
    /// The datagram must fit the 16-bit total length field.
    pub fn new(
        datagram: ICMPPacket,
        protocol: u8,
        ttl: u8,
        options: Option<Vec<u8>>,
        source_add: [u8; 4],
    ) -> (packet: IPV4)
        requires
            IPV4View::constructed_len(datagram@, options_view(options)) <= 0xFFFF,
        ensures
            packet@ == IPV4View::construct(
                datagram@,
                protocol,
                ttl,
                options_view(options),
                source_add,
            ),
            packet@.total_length == packet@.encoded_len(),
            packet@.version_header_len == 0x45 + option_words(
                options_bytes(options_view(options)).len(),
            ),
            packet@.checksum_is_valid(),
    {
        proof {
            lemma_constructed_is_consistent(
                datagram@,
                protocol,
                ttl,
                options_view(options),
                source_add,
            );
        }
        let mut version_header_len = VERSION_AND_MIN_HEADER_LEN;
        let mut total_length: usize = IPV4_HEADER_LEN + datagram.len();
        let carried = match options {
            Some(bytes) => {
                let len = bytes.len();
                let words = if len <= 16 {
                    ceiling_division(len, 4)
                } else {
                    MAX_OPTION_WORDS
                };
                version_header_len = version_header_len + words;
                let padded = pad_options(bytes);
                total_length = total_length + padded.len();
                Some(padded)
            },
            None => None,
        };
        let mut packet = IPV4 {
            version_header_len,
            dscp_ecn: 0,
            total_length: total_length as u16,
            identification: 0,
            flags_fragment_offset: 0,
            ttl,
            protocol,
            header_checksum: 0,
            source_add,
            destination_add: DEFAULT_DESTINATION,
            options: carried,
            datagram,
        };
        packet.assign_checksum();
        packet
    }

    /// Builds the header of an ICMP datagram: no options, the default
    /// source address.
    pub fn new_icmp_from_ip(datagram: ICMPPacket, ttl: u8) -> (packet: IPV4)
        requires
            20 + datagram@.encoded_len() <= 0xFFFF,
        ensures
            packet@ == IPV4View::construct(datagram@, 1, ttl, None, DEFAULT_SOURCE),
            packet@.total_length == 20 + datagram@.encoded_len(),
            packet@.version_header_len == 0x45,
            packet@.checksum_is_valid(),
    {
        IPV4::new(datagram, PROTOCOL_ICMP, ttl, None, DEFAULT_SOURCE)
    }

    /// The checksum the header ought to carry: the header is encoded with a
    /// zeroed checksum field and the checksum of those bytes is taken.
    pub fn compute_checksum(&self) -> (sum: u16)
        ensures
            sum == self@.computed_checksum(),
    {
        let zeroed = self.encode_header_with(0);
        calculate_ipv4_checksum(zeroed)
    }

    /// Stores the checksum the header ought to carry. Nothing else changes,
    /// and the stored checksum is valid afterwards.
    pub fn assign_checksum(&mut self)
        ensures
            final(self)@ == old(self)@.checksummed(),
            final(self)@.checksum_is_valid(),
            internet_checksum(final(self)@.header_bytes()) == 0,
    {
        proof {
            lemma_ipv4_checksum_identity(self@.checksummed());
        }
        self.header_checksum = self.compute_checksum();
    }

    /// Recomputes the header checksum and compares it with the stored one.
    pub fn verify_checksum(&self) -> (valid: bool)
        ensures
            valid == self@.checksum_is_valid(),
    {
        self.header_checksum == self.compute_checksum()
    }

    /// Reports a stored checksum, of the header or of the payload, that is
    /// not the recomputed one.
    pub fn verify(&self) -> (result: Result<(), CodecError>)
        ensures
            self@.checksums_are_valid() <==> result is Ok,
            !self@.checksums_are_valid() <==> result matches Err(CodecError::ChecksumMismatch),
    {
        if !self.verify_checksum() {
            return Err(CodecError::ChecksumMismatch);
        }
        self.datagram.verify()
    }
}

/// Fills `options` up with zero bytes to a whole number of 32-bit words.
pub fn pad_options(options: Vec<u8>) -> (padded: Vec<u8>)
    ensures
        padded@ == padded_options(options@),
{
    let ghost given = options@;
    let mut padded = options;
    while padded.len() % 4 != 0
        invariant
            given.len() <= padded@.len() <= given.len() + padding_len(given.len()),
            padded@.len() % 4 == 0 ==> padded@.len() == given.len() + padding_len(given.len()),
            padded@ == given + Seq::new((padded@.len() - given.len()) as nat, |i: int| 0u8),
        decreases given.len() + padding_len(given.len()) - padded@.len(),
    {
        padded.push(0);
    }
    padded
}

/// Divides `dividend` by `divisor` and rounds up.
pub fn ceiling_division(dividend: usize, divisor: usize) -> (quotient: u8)
    requires
        divisor > 0,
        ceiling(dividend as nat, divisor as nat) <= u8::MAX,
    ensures
        quotient == ceiling(dividend as nat, divisor as nat),
{
    let whole = dividend / divisor;
    let rest = dividend % divisor;
    proof {
        lemma_ceiling(dividend as nat, divisor as nat);
    }
    if rest == 0 {
        whole as u8
    } else {
        (whole + 1) as u8
    }
}

/// The ceiling is the whole quotient where the division leaves nothing, and
/// one more where it leaves a remainder; it is the least multiplier that
/// brings `divisor` up to `dividend`.
pub proof fn lemma_ceiling(dividend: nat, divisor: nat)
    requires
        divisor > 0,
    ensures
        ceiling(dividend, divisor) == if dividend % divisor == 0 {
            dividend / divisor
        } else {
            dividend / divisor + 1
        },
        ceiling(dividend, divisor) * divisor >= dividend,
        dividend > 0 ==> (ceiling(dividend, divisor) - 1) * divisor < dividend,
{
    let a = dividend as int;
    let b = divisor as int;
    let q = a / b;
    let r = a % b;
    vstd::arithmetic::div_mod::lemma_fundamental_div_mod(a, b);
    if r == 0 {
        assert(a + b - 1 == q * b + (b - 1)) by (nonlinear_arith)
            requires
                a == b * q + r,
                r == 0,
        ;
        vstd::arithmetic::div_mod::lemma_fundamental_div_mod_converse(a + b - 1, b, q, b - 1);
    } else {
        assert(a + b - 1 == (q + 1) * b + (r - 1)) by (nonlinear_arith)
            requires
                a == b * q + r,
        ;
        vstd::arithmetic::div_mod::lemma_fundamental_div_mod_converse(a + b - 1, b, q + 1, r - 1);
    }
    let c = ceiling(dividend, divisor) as int;
    assert(c * b >= a && (a > 0 ==> (c - 1) * b < a)) by (nonlinear_arith)
        requires
            a == b * q + r,
            0 <= r < b,
            c == if r == 0 {
                q
            } else {
                q + 1
            },
            a >= 0,
    ;
}

/// Appends an IPv4 address in dotted decimal, then in hexadecimal between
/// parentheses.
pub fn push_address(out: &mut String, addr: &[u8; 4])
    ensures
        final(out)@ == old(out)@ + render_address(*addr),
{
    let dotted = format_ipv4_address(addr);
    out.append(dotted.as_str());
    out.append(" (0x");
    push_hex_byte(out, addr[0]);
    push_hex_byte(out, addr[1]);
    push_hex_byte(out, addr[2]);
    push_hex_byte(out, addr[3]);
    out.append(")");
}

/// Formats an IPv4 address in dotted decimal.
pub fn format_ipv4_address(addr: &[u8; 4]) -> (text: String)
    ensures
        text@ == dotted_decimal(*addr),
{
    let mut out = String::new();
    push_decimal(&mut out, addr[0] as u64);
    out.append(".");
    push_decimal(&mut out, addr[1] as u64);
    out.append(".");
    push_decimal(&mut out, addr[2] as u64);
    out.append(".");
    push_decimal(&mut out, addr[3] as u64);
    out
}

/// The two bytes of `value`, high byte first.
pub fn u16_to_bytes_big_endian(value: u16) -> (bytes: [u8; 2])
    ensures
        bytes@ == be16(value),
{
    let bytes = [(value / 256) as u8, (value % 256) as u8];
    bytes
}

/// Computes the Internet checksum of `header`, the bytes of a header and its
/// options.
pub fn calculate_ipv4_checksum(header: Vec<u8>) -> (sum: u16)
    ensures
        sum == internet_checksum(header@),
{
    checksum(header.as_slice())
}

} // verus!
