//! Locates the TCP segment inside an IPv4 or IPv6 packet held in a borrowed
//! byte buffer, without copying it.

pub mod buffer;
pub mod envelope;
pub mod laws;
pub mod segment;
pub mod version;

