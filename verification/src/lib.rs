//! Bit-exact encoding and decoding of the three packet layers of an ICMP
//! echo exchange, together with the Internet checksum that protects the two
//! inner layers.
//!
//! Each layer owns the layer inside it: an [`ethernet_frame::EthernetFrame`]
//! holds an [`ipv4::internet_packet::IPV4`], which holds an
//! [`ipv4::icmp::ICMPPacket`]. Every layer encodes itself with `to_bytes`,
//! decodes itself with `from_bytes`, checks its checksums with `verify` and
//! describes itself with `render`. All of them are pure functions of their
//! arguments.
//!
//! Each type has a logical record as its view, and the encoding, the decoding
//! and the checksum rules are defined on those records. The functions here
//! are proved to compute exactly what the definitions say, and the
//! definitions are proved to fit together: decoding undoes encoding, a
//! stored checksum that is valid makes the covered bytes sum to zero, and the
//! bytes of a record depend on nothing but the record.
//!
//! Decoding is lenient: it fails only on a buffer that is too short, and
//! leaves it to the caller to ask for `verify`.

pub mod byte_order;
pub mod checksum;
pub mod error;
pub mod ethernet_frame;
pub mod ipv4;
pub mod text;
