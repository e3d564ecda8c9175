//! The network layer and what it carries.

pub mod icmp;
pub mod internet_packet;
