//! The ICMP echo message: eight header bytes followed by an opaque payload.

use crate::byte_order::{
    be16, be_bytes, be_value, from_be16, lemma_be_bytes_len, lemma_be_bytes_read_back, push_be,
    push_u16_be, read_u16_be,
};
use crate::checksum::{checksum, internet_checksum, lemma_checksum_verifies, with_word};
use crate::error::CodecError;
use crate::text::{decimal, hex_dump, hex_u16, push_decimal, push_hex_dump, push_hex_u16};
use vstd::arithmetic::power::pow;
use vstd::prelude::*;
use vstd::string::StringExecFns;

verus! {

/// The message type of an echo request.
pub const ECHO_REQUEST: u8 = 8;

/// The message type of an echo reply.
pub const ECHO_REPLY: u8 = 0;

/// The number of bytes in front of the payload.
pub const ICMP_HEADER_LEN: usize = 8;

/// An ICMP echo message.
#[derive(Clone, Debug, PartialEq, Eq)]
pub struct ICMPPacket {
    /// Message type: 8 for an echo request, 0 for an echo reply.
    pub packet_type: u8,
    /// Message code, zero for both echo messages.
    pub code: u8,
    /// Internet checksum of the whole message, computed with this field
    /// taken as zero. Decoding stores what the buffer held; encoding sends
    /// the computed checksum, whatever is stored.
    pub checksum: u16,
    /// Tells the probes of one sender from those of another.
    pub identifier: u16,
    /// Tells the probes of one sender apart.
    pub sequence: u16,
    /// Payload, carried verbatim.
    pub data: Vec<u8>,
}

/// The logical record behind an [`ICMPPacket`].
pub struct ICMPPacketView {
    pub packet_type: u8,
    pub code: u8,
    pub checksum: u16,
    pub identifier: u16,
    pub sequence: u16,
    pub data: Seq<u8>,
}

impl View for ICMPPacket {
    type V = ICMPPacketView;

    open spec fn view(&self) -> ICMPPacketView {
        ICMPPacketView {
            packet_type: self.packet_type,
            code: self.code,
            checksum: self.checksum,
            identifier: self.identifier,
            sequence: self.sequence,
            data: self.data@,
        }
    }
}

impl ICMPPacketView {
    /// The fields in wire order, as they stand: type, code, checksum,
    /// identifier and sequence number, the 16-bit fields big-endian, then the
    /// payload.
    pub open spec fn layout(self) -> Seq<u8> {
        seq![self.packet_type, self.code]
            + be16(self.checksum)
            + be16(self.identifier)
            + be16(self.sequence)
            + self.data
    }

    /// The same message with `checksum` in the checksum field.
    pub open spec fn with_checksum_field(self, checksum: u16) -> ICMPPacketView {
        ICMPPacketView { checksum, ..self }
    }

    /// The checksum the message ought to carry: that of its bytes with the
    /// checksum field zeroed.
    pub open spec fn computed_checksum(self) -> u16 {
        internet_checksum(self.with_checksum_field(0).layout())
    }

    /// The same message with the checksum it ought to carry.
    pub open spec fn checksummed(self) -> ICMPPacketView {
        self.with_checksum_field(self.computed_checksum())
    }

    /// Whether the message carries the checksum it ought to carry.
    pub open spec fn checksum_is_valid(self) -> bool {
        self.checksum == self.computed_checksum()
    }

    /// The bytes of the message on the wire. The checksum that goes out is
    /// the computed one, whatever the checksum field holds.
    pub open spec fn encode(self) -> Seq<u8> {
        self.checksummed().layout()
    }

    /// The message that `bytes` holds. Eight bytes are needed; whatever
    /// follows them is the payload. The checksum is taken as found.
    pub open spec fn decode(bytes: Seq<u8>) -> Result<ICMPPacketView, CodecError> {
        if bytes.len() < 8 {
            Err(CodecError::TruncatedBuffer)
        } else {
            Ok(
                ICMPPacketView {
                    packet_type: bytes[0],
                    code: bytes[1],
                    checksum: from_be16(bytes[2], bytes[3]),
                    identifier: from_be16(bytes[4], bytes[5]),
                    sequence: from_be16(bytes[6], bytes[7]),
                    data: bytes.skip(8),
                },
            )
        }
    }

    /// The number of bytes of the encoded message.
    pub open spec fn encoded_len(self) -> nat {
        8 + self.data.len()
    }

    /// The echo request with the given fields and a valid checksum.
    pub open spec fn echo_request(sequence: u16, identifier: u16, data: Seq<u8>) -> ICMPPacketView {
        (ICMPPacketView { packet_type: 8, code: 0, checksum: 0, identifier, sequence, data })
            .checksummed()
    }

    /// The message as text, one field to a line: the checksum, the
    /// identifier and the payload in hexadecimal, the rest in decimal.
    pub open spec fn render(self) -> Seq<char> {
        "ICMP: -----ICMP Header-----\nICMP:\nICMP: type= "@
            + decimal(self.packet_type as nat)
            + "\nICMP: Code= "@
            + decimal(self.code as nat)
            + "\nICMP: checksum= 0x"@
            + hex_u16(self.checksum)
            + "\nICMP: identifier= 0x"@
            + hex_u16(self.identifier)
            + "\nICMP: sequence= "@
            + decimal(self.sequence as nat)
            + "\nICMP: payload="@
            + hex_dump(self.data)
            + "\nICMP: -----ICMP Header-----\n"@
    }
}

/// The 12-byte timestamp record: seconds as 8 bytes, then the sub-second
/// part as 4 bytes, both big-endian.
pub open spec fn timestamp_record(seconds: u64, nanos: u32) -> Seq<u8> {
    be_bytes(seconds as nat, 8) + be_bytes(nanos as nat, 4)
}

/// The timestamp record is twelve bytes long; its first eight spell the
/// seconds and its last four the sub-second part.
pub proof fn lemma_timestamp_record_read_back(seconds: u64, nanos: u32)
    ensures
        timestamp_record(seconds, nanos).len() == 12,
        be_value(timestamp_record(seconds, nanos).take(8)) == seconds,
        be_value(timestamp_record(seconds, nanos).skip(8)) == nanos,
{
    lemma_be_bytes_len(seconds as nat, 8);
    lemma_be_bytes_len(nanos as nat, 4);
    assert(pow(256, 8) == 0x1_0000_0000_0000_0000 && pow(256, 4) == 0x1_0000_0000) by {
        reveal_with_fuel(pow, 9);
    }
    lemma_be_bytes_read_back(seconds as nat, 8);
    lemma_be_bytes_read_back(nanos as nat, 4);
    assert(timestamp_record(seconds, nanos).take(8) =~= be_bytes(seconds as nat, 8));
    assert(timestamp_record(seconds, nanos).skip(8) =~= be_bytes(nanos as nat, 4));
}

/// Reading the fields back from their wire order gives every field back,
/// the checksum as it stood.
pub proof fn lemma_icmp_layout_round_trip(message: ICMPPacketView)
    ensures
        message.layout().len() == message.encoded_len(),
        ICMPPacketView::decode(message.layout()) == Ok::<ICMPPacketView, CodecError>(message),
{
    assert(message.layout().skip(8) =~= message.data);
}

/// Decoding an encoded message gives the message back with the checksum it
/// ought to carry: the very same message, if its checksum was valid.
pub proof fn lemma_icmp_round_trip(message: ICMPPacketView)
    ensures
        ICMPPacketView::decode(message.encode()) == Ok::<ICMPPacketView, CodecError>(
            message.checksummed(),
        ),
        message.checksum_is_valid() ==> ICMPPacketView::decode(message.encode()) == Ok::<
            ICMPPacketView,
            CodecError,
        >(message),
{
    lemma_icmp_layout_round_trip(message.checksummed());
}

/// A buffer of eight bytes or more is the wire order of the message decoded
/// from it: decoding loses nothing.
pub proof fn lemma_icmp_decode_is_exact(bytes: Seq<u8>)
    requires
        bytes.len() >= 8,
    ensures
        ICMPPacketView::decode(bytes) is Ok,
        ICMPPacketView::decode(bytes)->Ok_0.layout() == bytes,
{
}

/// Assigning the checksum makes it valid, and assigning it again changes
/// nothing.
pub proof fn lemma_icmp_checksummed_is_valid(message: ICMPPacketView)
    ensures
        message.checksummed().checksum_is_valid(),
        message.checksummed().checksummed() == message.checksummed(),
        message.checksum_is_valid() <==> message.checksummed() == message,
{
}

/// Encoding is deterministic: the bytes depend on the logical record alone.
/// Two messages that agree in every field but the stored checksum encode to
/// the same bytes, eight more than the payload has, and the message decoded
/// from those bytes encodes to them again.
pub proof fn lemma_icmp_encoding_is_deterministic(first: ICMPPacketView, second: ICMPPacketView)
    requires
        first.with_checksum_field(0) == second.with_checksum_field(0),
    ensures
        first.encode() == second.encode(),
        first.encode().len() == first.encoded_len(),
        ICMPPacketView::decode(first.encode())->Ok_0.encode() == first.encode(),
{
    lemma_icmp_round_trip(first);
}

/// The verification identity: the Internet checksum of a message in wire
/// order, a valid checksum field included, is zero. So is that of every
/// encoded message.
pub proof fn lemma_icmp_checksum_identity(message: ICMPPacketView)
    ensures
        message.checksum_is_valid() ==> internet_checksum(message.layout()) == 0,
        internet_checksum(message.encode()) == 0,
{
    let zeroed = message.with_checksum_field(0).layout();
    lemma_checksum_verifies(zeroed, 2);
    assert(message.checksummed().layout() =~= with_word(zeroed, 2, message.computed_checksum()));
}

impl ICMPPacket {
    /// The number of bytes of the encoded message.
    pub fn len(&self) -> (n: usize)
        requires
            self@.encoded_len() <= usize::MAX,
        ensures
            n == self@.encoded_len(),
    {
        ICMP_HEADER_LEN + self.data.len()
    }

    /// Puts the fields in wire order, with `checksum` in place of the stored
    /// checksum.
    fn layout_with(&self, checksum: u16) -> (bytes: Vec<u8>)
        ensures
            bytes@ == self@.with_checksum_field(checksum).layout(),
    {
        let mut bytes: Vec<u8> = Vec::new();
        bytes.push(self.packet_type);
        bytes.push(self.code);
        push_u16_be(&mut bytes, checksum);
        push_u16_be(&mut bytes, self.identifier);
        push_u16_be(&mut bytes, self.sequence);
        bytes.extend_from_slice(self.data.as_slice());
        bytes
    }

    /// Encodes the message. The bytes are laid out once with a zeroed
    /// checksum field, their checksum is taken, and they are laid out again
    /// with it: the stored checksum is not consulted, and the checksum of
    /// what comes out is zero.
    pub fn to_bytes(&self) -> (bytes: Vec<u8>)
        ensures
            bytes@ == self@.encode(),
            bytes@.len() == 8 + self.data@.len(),
            internet_checksum(bytes@) == 0,
    {
        proof {
            lemma_icmp_checksum_identity(self@);
        }
        let checksum = self.compute_checksum();
        self.layout_with(checksum)
    }

    /// Decodes a message from a buffer of at least eight bytes; a shorter
    /// one is reported as truncated. The checksum is read, not checked: see
    /// [`ICMPPacket::verify`].
    pub fn from_bytes(bytes: &[u8]) -> (result: Result<ICMPPacket, CodecError>)
        ensures
            bytes@.len() < 8 <==> result matches Err(CodecError::TruncatedBuffer),
            bytes@.len() >= 8 <==> result is Ok,
            result matches Ok(packet) ==> ICMPPacketView::decode(bytes@) matches Ok(decoded)
                && decoded == packet@,
    {
        if bytes.len() < ICMP_HEADER_LEN {
            return Err(CodecError::TruncatedBuffer);
        }
        let data = vstd::slice::slice_to_vec(&bytes[ICMP_HEADER_LEN..bytes.len()]);
        Ok(
            ICMPPacket {
                packet_type: bytes[0],
                code: bytes[1],
                checksum: read_u16_be(bytes, 2),
                identifier: read_u16_be(bytes, 4),
                sequence: read_u16_be(bytes, 6),
                data,
            },
        )
    }

    /// The checksum the message ought to carry: the message is laid out with
    /// a zeroed checksum field and the checksum of those bytes is taken.
    pub fn compute_checksum(&self) -> (sum: u16)
        ensures
            sum == self@.computed_checksum(),
    {
        let zeroed = self.layout_with(0);
        calculate_checksum(&zeroed)
    }

    /// Stores the checksum the message ought to carry. Nothing else
    /// changes, and the stored checksum is valid afterwards.
    pub fn assign_checksum(&mut self)
        ensures
            final(self)@ == old(self)@.checksummed(),
            final(self)@.checksum_is_valid(),
            internet_checksum(final(self)@.layout()) == 0,
    {
        proof {
            lemma_icmp_checksum_identity(self@.checksummed());
        }
        self.checksum = self.compute_checksum();
    }

    /// Recomputes the checksum and compares it with the stored one.
    pub fn verify_checksum(&self) -> (valid: bool)
        ensures
            valid == self@.checksum_is_valid(),
    {
        self.checksum == self.compute_checksum()
    }

    /// Reports a stored checksum that is not the recomputed one.
    pub fn verify(&self) -> (result: Result<(), CodecError>)
        ensures
            self@.checksum_is_valid() <==> result is Ok,
            !self@.checksum_is_valid() <==> result matches Err(CodecError::ChecksumMismatch),
    {
        if self.verify_checksum() {
            Ok(())
        } else {
            Err(CodecError::ChecksumMismatch)
        }
    }

    /// Renders the message as text for diagnostic display.
    pub fn render(&self) -> (text: String)
        ensures
            text@ == self@.render(),
    {
        let mut out = String::from_str("ICMP: -----ICMP Header-----\nICMP:\nICMP: type= ");
        push_decimal(&mut out, self.packet_type as u64);
        out.append("\nICMP: Code= ");
        push_decimal(&mut out, self.code as u64);
        out.append("\nICMP: checksum= 0x");
        push_hex_u16(&mut out, self.checksum);
        out.append("\nICMP: identifier= 0x");
        push_hex_u16(&mut out, self.identifier);
        out.append("\nICMP: sequence= ");
        push_decimal(&mut out, self.sequence as u64);
        out.append("\nICMP: payload=");
        push_hex_dump(&mut out, self.data.as_slice());
        out.append("\nICMP: -----ICMP Header-----\n");
        out
    }

    /// Builds the echo request number `sequence` of the sender `identifier`
    /// around the payload `data`. Its checksum is valid.
    pub fn echo_request(sequence: u16, identifier: u16, data: Vec<u8>) -> (packet: ICMPPacket)
        ensures
            packet@ == ICMPPacketView::echo_request(sequence, identifier, data@),
            packet@.checksum_is_valid(),
    {
        let mut packet = ICMPPacket {
            packet_type: ECHO_REQUEST,
            code: 0,
            checksum: 0,
            identifier,
            sequence,
            data,
        };
        packet.assign_checksum();
        packet
    }

    /// Builds the echo request number `sequence` of the sender `identifier`.
    /// Its payload is the time of sending, `seconds` and `nanos` after the
    /// epoch, as a 12-byte record; its checksum is valid.
    pub fn new_echo_request(
        sequence: u16,
        identifier: u16,
        seconds: u64,
        nanos: u32,
    ) -> (packet: ICMPPacket)
        ensures
            packet@ == ICMPPacketView::echo_request(
                sequence,
                identifier,
                timestamp_record(seconds, nanos),
            ),
            packet@.checksum_is_valid(),
            packet@.encoded_len() == 20,
    {
        ICMPPacket::echo_request(sequence, identifier, time_to_bytes(seconds, nanos))
    }
}

/// Encodes a point in time, `seconds` and `nanos` after the epoch, as the
/// 12-byte timestamp record.
pub fn time_to_bytes(seconds: u64, nanos: u32) -> (bytes: Vec<u8>)
    ensures
        bytes@ == timestamp_record(seconds, nanos),
        bytes@.len() == 12,
{
    let mut bytes: Vec<u8> = Vec::new();
    push_be(&mut bytes, seconds, 8);
    push_be(&mut bytes, nanos as u64, 4);
    proof {
        lemma_be_bytes_len(seconds as nat, 8);
        lemma_be_bytes_len(nanos as nat, 4);
    }
    bytes
}

/// Computes the Internet checksum of `data`.
pub fn calculate_checksum(data: &Vec<u8>) -> (sum: u16)
    ensures
        sum == internet_checksum(data@),
{
    checksum(data.as_slice())
}

} // verus!
