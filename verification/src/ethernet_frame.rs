//! The Ethernet frame around an IPv4 datagram.

use crate::error::CodecError;
use crate::ipv4::internet_packet::{IPV4, IPV4View, lemma_ipv4_round_trip};
use crate::text::{colon_hex, hex_byte, push_colon_hex, push_hex_byte};
use vstd::prelude::*;
use vstd::string::StringExecFns;

verus! {

/// The number of bytes in front of the payload.
pub const ETHERNET_HEADER_LEN: usize = 14;

/// The address that every station on the link listens to.
pub const BROADCAST_ADDRESS: [u8; 6] = [0xff, 0xff, 0xff, 0xff, 0xff, 0xff];

/// The hardware address frames are sent from.
pub const LOCAL_ADDRESS: [u8; 6] = [0x3c, 0x06, 0x30, 0x36, 0x61, 0x6c];

/// The EtherType of IPv4.
pub const ETHER_TYPE_IPV4: [u8; 2] = [0x08, 0x00];

/// An Ethernet frame together with the IPv4 datagram it carries.
#[derive(Clone, Debug, PartialEq, Eq)]
pub struct EthernetFrame {
    /// Destination hardware address.
    pub destination_address: [u8; 6],
    /// Source hardware address.
    pub source_address: [u8; 6],
    /// EtherType of the payload.
    pub ether_type: [u8; 2],
    /// The payload.
    pub packet: IPV4,
}

/// The logical record behind an [`EthernetFrame`].
pub struct EthernetFrameView {
    pub destination_address: [u8; 6],
    pub source_address: [u8; 6],
    pub ether_type: [u8; 2],
    pub packet: IPV4View,
}

impl View for EthernetFrame {
    type V = EthernetFrameView;

    open spec fn view(&self) -> EthernetFrameView {
        EthernetFrameView {
            destination_address: self.destination_address,
            source_address: self.source_address,
            ether_type: self.ether_type,
            packet: self.packet@,
        }
    }
}

impl EthernetFrameView {
    /// The bytes of the frame on the wire: destination, source, EtherType,
    /// then the encoded datagram.
    pub open spec fn encode(self) -> Seq<u8> {
        self.destination_address@
            + self.source_address@
            + self.ether_type@
            + self.packet.encode()
    }

    /// The frame that `bytes` holds. The first fourteen bytes are the header;
    /// the rest is decoded as an IPv4 datagram.
    pub open spec fn decode(bytes: Seq<u8>) -> Result<EthernetFrameView, CodecError> {
        if bytes.len() < 14 {
            Err(CodecError::TruncatedBuffer)
        } else {
            match IPV4View::decode(bytes.skip(14)) {
                Ok(packet) => Ok(
                    EthernetFrameView {
                        destination_address: [
                            bytes[0],
                            bytes[1],
                            bytes[2],
                            bytes[3],
                            bytes[4],
                            bytes[5],
                        ],
                        source_address: [
                            bytes[6],
                            bytes[7],
                            bytes[8],
                            bytes[9],
                            bytes[10],
                            bytes[11],
                        ],
                        ether_type: [bytes[12], bytes[13]],
                        packet,
                    },
                ),
                Err(e) => Err(e),
            }
        }
    }

    /// The same header around `packet`.
    pub open spec fn with_packet(self, packet: IPV4View) -> EthernetFrameView {
        EthernetFrameView { packet, ..self }
    }

    /// The number of bytes of the encoded frame.
    pub open spec fn encoded_len(self) -> nat {
        14 + self.packet.encoded_len()
    }

    /// The frame around `packet`: sent to every station, from the local
    /// address, as IPv4.
    pub open spec fn construct(packet: IPV4View) -> EthernetFrameView {
        EthernetFrameView {
            destination_address: BROADCAST_ADDRESS,
            source_address: LOCAL_ADDRESS,
            ether_type: ETHER_TYPE_IPV4,
            packet,
        }
    }

    /// The frame as text, one field to a line, the payload after the header,
    /// all in hexadecimal.
    pub open spec fn render(self) -> Seq<char> {
        "ETHER: -----Ether Header-----\nETHER:\nETHER: Destination= "@
            + colon_hex(self.destination_address)
            + "\nETHER: Source     = "@
            + colon_hex(self.source_address)
            + "\nETHER: Ethertype  = 0x"@
            + hex_byte(self.ether_type[0])
            + hex_byte(self.ether_type[1])
            + "\nETHER: -----Ether Header-----\n\nPacket: \n"@
            + self.packet.render()
    }
}

/// Decoding an encoded frame whose datagram has no options gives the frame
/// back, the ICMP message in it with the checksum it ought to carry: the very
/// same frame, if that checksum was valid.
pub proof fn lemma_ethernet_round_trip(frame: EthernetFrameView)
    requires
        frame.packet.options is None,
    ensures
        EthernetFrameView::decode(frame.encode()) == Ok::<EthernetFrameView, CodecError>(
            frame.with_packet(frame.packet.with_datagram(frame.packet.datagram.checksummed())),
        ),
        frame.packet.datagram.checksum_is_valid() ==> EthernetFrameView::decode(frame.encode())
            == Ok::<EthernetFrameView, CodecError>(frame),
{
    let bytes = frame.encode();
    assert(bytes.skip(14) =~= frame.packet.encode());
    lemma_ipv4_round_trip(frame.packet);
    let decoded = EthernetFrameView::decode(bytes)->Ok_0;
    assert(decoded.destination_address =~= frame.destination_address);
    assert(decoded.source_address =~= frame.source_address);
    assert(decoded.ether_type =~= frame.ether_type);
}

/// Encoding is deterministic: the bytes depend on the logical record alone.
/// Two frames with the same header and the same IPv4 header, whose ICMP
/// messages agree in every field but the stored checksum, encode to the same
/// bytes, fourteen more than the datagram has; and if the datagram has no
/// options, the frame decoded from those bytes encodes to them again.
pub proof fn lemma_ethernet_encoding_is_deterministic(
    first: EthernetFrameView,
    second: EthernetFrameView,
)
    requires
        first.with_packet(second.packet) == second,
        first.packet.with_datagram(second.packet.datagram) == second.packet,
        first.packet.datagram.with_checksum_field(0) == second.packet.datagram.with_checksum_field(
            0,
        ),
    ensures
        first.encode() == second.encode(),
        first.encode().len() == first.encoded_len(),
        first.packet.options is None ==> EthernetFrameView::decode(
            first.encode(),
        )->Ok_0.encode() == first.encode(),
{
    if first.packet.options is None {
        lemma_ethernet_round_trip(first);
    }
}

/// A buffer decodes as a frame exactly when it has room for the three fixed
/// headers, 42 bytes in all; a shorter one is reported as truncated.
pub proof fn lemma_ethernet_decode_needs_42(bytes: Seq<u8>)
    ensures
        bytes.len() >= 42 <==> EthernetFrameView::decode(bytes) is Ok,
        bytes.len() < 42 <==> EthernetFrameView::decode(bytes) matches Err(
            CodecError::TruncatedBuffer,
        ),
{
}

impl EthernetFrame {
    /// Encodes the frame: the header, then the encoded datagram.
    pub fn to_bytes(&self) -> (bytes: Vec<u8>)
        ensures
            bytes@ == self@.encode(),
            bytes@.len() == self@.encoded_len(),
            bytes@.skip(14) == self@.packet.encode(),
    {
        let mut result: Vec<u8> = Vec::new();
        result.extend_from_slice(&self.destination_address);
        result.extend_from_slice(&self.source_address);
        result.extend_from_slice(&self.ether_type);
        let payload = self.packet.to_bytes();
        result.extend_from_slice(payload.as_slice());
        result
    }

    /// Decodes a frame and the datagram in it from a buffer that holds the
    /// fourteen header bytes, the twenty of the IPv4 header and the eight of
    /// the ICMP header; a shorter one is reported as truncated. Nothing is
    /// checked beyond the lengths: see [`EthernetFrame::verify`].
    pub fn from_bytes(bytes: &[u8]) -> (result: Result<EthernetFrame, CodecError>)
        ensures
            bytes@.len() < 42 <==> result matches Err(CodecError::TruncatedBuffer),
            bytes@.len() >= 42 <==> result is Ok,
            result matches Ok(frame) ==> EthernetFrameView::decode(bytes@) matches Ok(decoded)
                && decoded == frame@,
    {
        if bytes.len() < ETHERNET_HEADER_LEN {
            return Err(CodecError::TruncatedBuffer);
        }
        let rest = &bytes[ETHERNET_HEADER_LEN..bytes.len()];
        let packet = match IPV4::from_bytes(rest) {
            Ok(packet) => packet,
            Err(e) => {
                return Err(e);
            },
        };
        let destination_address = [bytes[0], bytes[1], bytes[2], bytes[3], bytes[4], bytes[5]];
        let source_address = [bytes[6], bytes[7], bytes[8], bytes[9], bytes[10], bytes[11]];
        let ether_type = [bytes[12], bytes[13]];
        let frame = EthernetFrame { destination_address, source_address, ether_type, packet };
        Ok(frame)
    }

    /// Builds the frame around `packet`: sent to every station, from the
    /// local address, as IPv4.
    pub fn new_ether(packet: IPV4) -> (frame: EthernetFrame)
        ensures
            frame@ == EthernetFrameView::construct(packet@),
    {
        EthernetFrame {
            destination_address: BROADCAST_ADDRESS,
            source_address: LOCAL_ADDRESS,
            ether_type: ETHER_TYPE_IPV4,
            packet,
        }
    }

    /// Reports a stored checksum, of the IPv4 header or of the ICMP message,
    /// that is not the recomputed one. The frame has none of its own.
    pub fn verify(&self) -> (result: Result<(), CodecError>)
        ensures
            self@.packet.checksums_are_valid() <==> result is Ok,
            !self@.packet.checksums_are_valid() <==> result matches Err(
                CodecError::ChecksumMismatch,
            ),
    {
        self.packet.verify()
    }

    /// Renders the frame as text for diagnostic display.
    pub fn render(&self) -> (text: String)
        ensures
            text@ == self@.render(),
    {
        let mut out = String::from_str(
            "ETHER: -----Ether Header-----\nETHER:\nETHER: Destination= ",
        );
        push_colon_hex(&mut out, &self.destination_address);
        out.append("\nETHER: Source     = ");
        push_colon_hex(&mut out, &self.source_address);
        out.append("\nETHER: Ethertype  = 0x");
        push_hex_byte(&mut out, self.ether_type[0]);
        push_hex_byte(&mut out, self.ether_type[1]);
        out.append("\nETHER: -----Ether Header-----\n\nPacket: \n");
        let payload = self.packet.render();
        out.append(payload.as_str());
        out
    }
}

} // verus!
