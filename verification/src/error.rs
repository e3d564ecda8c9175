//! The conditions the codec reports to its callers.

use vstd::prelude::*;

verus! {

/// Why a buffer was not accepted.
#[derive(Clone, Copy, Debug, PartialEq, Eq, Structural)]
pub enum CodecError {
    /// The buffer ends before the fixed part of a layer does: fewer than 14
    /// bytes for an Ethernet header, 20 for an IPv4 header, 8 for an ICMP
    /// echo header.
    TruncatedBuffer,
    /// A stored checksum differs from the one recomputed over the same bytes.
    ChecksumMismatch,
}

} // verus!
