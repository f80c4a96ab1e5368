//! The two IP versions that can carry a TCP segment here, and where each keeps
//! its protocol field.

use vstd::prelude::*;

verus! {

/// An IP version whose header the locator knows how to read.
#[derive(Clone, Copy, Debug, PartialEq, Eq, Structural)]
pub enum IpVersion {
    V4,
    V6,
}

/// The high four bits of a byte, as a number.
pub open spec fn high_nibble(b: u8) -> int {
    b as int / 16
}

impl IpVersion {
    /// The version that a version nibble names, if it is one of the two.
    pub open spec fn spec_from_nibble(n: int) -> Option<IpVersion> {
        if n == 4 {
            Some(IpVersion::V4)
        } else if n == 6 {
            Some(IpVersion::V6)
        } else {
            None
        }
    }

    /// The version number as it stands on the wire.
    pub open spec fn spec_number(self) -> u8 {
        match self {
            IpVersion::V4 => 4,
            IpVersion::V6 => 6,
        }
    }

    /// Where, counted from the start of the IP header, the byte naming the
    /// carried protocol lies: IPv4's protocol field, or the next-header field
    /// of IPv6's fixed base header.
    pub open spec fn spec_protocol_field_offset(self) -> nat {
        match self {
            IpVersion::V4 => 9,
            IpVersion::V6 => 6,
        }
    }

    /// Reads the version from the first byte of an IP header: its high
    /// nibble, isolated by masking first and shifting after.
    pub fn from_header_byte(b: u8) -> (r: Option<IpVersion>)
        ensures
            r == IpVersion::spec_from_nibble(high_nibble(b)),
    {
        let nibble: u8 = (b & 0xF0) >> 4;
        assert(((b & 0xF0) >> 4) as int == b as int / 16) by (bit_vector);
        if nibble == 4 {
            Some(IpVersion::V4)
        } else if nibble == 6 {
            Some(IpVersion::V6)
        } else {
            None
        }
    }

    /// The version number as it stands on the wire.
    pub fn number(&self) -> (r: u8)
        ensures
            r == self.spec_number(),
    {
        match self {
            IpVersion::V4 => 4,
            IpVersion::V6 => 6,
        }
    }

    /// Where, counted from the start of the IP header, the protocol byte lies.
    pub fn protocol_field_offset(&self) -> (r: usize)
        ensures
            r == self.spec_protocol_field_offset(),
    {
        match self {
            IpVersion::V4 => 9,
            IpVersion::V6 => 6,
        }
    }
}

} // verus!
