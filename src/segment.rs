//! The segment locator: checks an IP header and the room left for a TCP
//! header, and hands back a view that records where each begins.

use vstd::prelude::*;

use crate::buffer::{PacketData, PacketDataModel};
use crate::version::{high_nibble, IpVersion};

verus! {

/// The fewest bytes an IP header can take.
pub const MIN_IP_HEADER_LEN: usize = 20;

/// The fewest bytes a TCP header can take.
pub const MIN_TCP_HEADER_LEN: usize = 20;

/// The IP protocol number of TCP.
pub const TCP_PROTOCOL: u8 = 6;

/// Why a buffer holds no TCP segment that can be located.
#[derive(Clone, Copy, Debug, PartialEq, Eq, Structural)]
pub enum TcpSegmentError {
    /// The buffer is too short for the IP header, or for a TCP header at the
    /// given segment offset.
    MalformedHeader,
    /// The version nibble is neither 4 nor 6.
    UnsupportedIpVersion,
    /// The protocol (IPv4) or next-header (IPv6) byte is not TCP's.
    UnsupportedProtocol,
}

/// What a [`TcpSegment`] stands for.
pub ghost struct TcpSegmentModel {
    pub data: PacketDataModel,
    pub packet_offset: nat,
    pub segment_offset: nat,
    pub ip_version: IpVersion,
    pub checksum_validated: bool,
}

impl TcpSegmentModel {
    /// What holds of every live segment view: room for an IP header and for a
    /// TCP header at their offsets, and TCP named at the version's protocol
    /// field.
    pub open spec fn well_formed(self) -> bool {
        let bytes = self.data.bytes;
        &&& self.data.well_formed()
        &&& self.packet_offset + MIN_IP_HEADER_LEN <= bytes.len()
        &&& self.segment_offset + MIN_TCP_HEADER_LEN <= bytes.len()
        &&& IpVersion::spec_from_nibble(high_nibble(bytes[self.packet_offset as int]))
            == Some(self.ip_version)
        &&& bytes[self.packet_offset + self.ip_version.spec_protocol_field_offset() as int]
            == TCP_PROTOCOL
    }
}

/// The outcome of locating a TCP segment in `data`, whose IP header starts at
/// `packet_offset` and whose TCP header is declared to start at
/// `segment_offset`. The checks come in this order: room for the IP header,
/// the version, the protocol, room for the TCP header.
pub open spec fn locate_spec(data: PacketDataModel, packet_offset: nat, segment_offset: nat)
    -> Result<TcpSegmentModel, TcpSegmentError>
{
    let bytes = data.bytes;
    if bytes.len() < packet_offset + MIN_IP_HEADER_LEN {
        Err(TcpSegmentError::MalformedHeader)
    } else {
        match IpVersion::spec_from_nibble(high_nibble(bytes[packet_offset as int])) {
            None => Err(TcpSegmentError::UnsupportedIpVersion),
            Some(v) => {
                if bytes[packet_offset + v.spec_protocol_field_offset() as int] != TCP_PROTOCOL {
                    Err(TcpSegmentError::UnsupportedProtocol)
                } else if bytes.len() < segment_offset + MIN_TCP_HEADER_LEN {
                    Err(TcpSegmentError::MalformedHeader)
                } else {
                    Ok(
                        TcpSegmentModel {
                            data,
                            packet_offset,
                            segment_offset,
                            ip_version: v,
                            checksum_validated: false,
                        },
                    )
                }
            },
        }
    }
}

/// A located TCP segment: the packet's bytes, shared and read-only, with the
/// offsets of its IP header and of its TCP header.
pub struct TcpSegment<'packet> {
    data: PacketData<'packet>,
    packet_offset: usize,
    segment_offset: usize,
    ip_version: IpVersion,
    validated_checksum: bool,
}

/// What locating a segment yields.
pub type TcpSegmentResult<'packet> = Result<TcpSegment<'packet>, TcpSegmentError>;

/// The model of a locator's result.
pub open spec fn result_model(r: TcpSegmentResult) -> Result<TcpSegmentModel, TcpSegmentError> {
    match r {
        Ok(s) => Ok(s@),
        Err(e) => Err(e),
    }
}

impl<'packet> View for TcpSegment<'packet> {
    type V = TcpSegmentModel;

    closed spec fn view(&self) -> TcpSegmentModel {
        TcpSegmentModel {
            data: self.data@,
            packet_offset: self.packet_offset as nat,
            segment_offset: self.segment_offset as nat,
            ip_version: self.ip_version,
            checksum_validated: self.validated_checksum,
        }
    }
}

impl<'packet> TcpSegment<'packet> {
    #[verifier::type_invariant]
    closed spec fn inv(self) -> bool {
        self@.well_formed()
    }

    /// Locates the TCP segment in `segment`, whose IP header starts at
    /// `packet_offset` and whose TCP header is declared to start at
    /// `segment_offset`. The bytes are borrowed, never copied or changed; a
    /// located segment starts with its checksum not validated.
    pub fn new(segment: PacketData<'packet>, packet_offset: usize, segment_offset: usize) -> (r:
        TcpSegmentResult<'packet>)
        ensures
            result_model(r) == locate_spec(segment@, packet_offset as nat, segment_offset as nat),
    {
        let len = segment.len();
        if len < MIN_IP_HEADER_LEN || packet_offset > len - MIN_IP_HEADER_LEN {
            return Err(TcpSegmentError::MalformedHeader);
        }
        let ip_version = match IpVersion::from_header_byte(segment.byte(packet_offset)) {
            Some(v) => v,
            None => {
                return Err(TcpSegmentError::UnsupportedIpVersion);
            },
        };
        let protocol = segment.byte(packet_offset + ip_version.protocol_field_offset());
        if protocol != TCP_PROTOCOL {
            return Err(TcpSegmentError::UnsupportedProtocol);
        }
        if len < MIN_TCP_HEADER_LEN || segment_offset > len - MIN_TCP_HEADER_LEN {
            return Err(TcpSegmentError::MalformedHeader);
        }
        Ok(
            TcpSegment {
                data: segment,
                packet_offset,
                segment_offset,
                ip_version,
                validated_checksum: false,
            },
        )
    }

    /// The packet's bytes, shared with the caller.
    pub fn data(&self) -> (r: PacketData<'packet>)
        ensures
            r@ == self@.data,
            self@.well_formed(),
    {
        proof {
            use_type_invariant(self);
        }
        self.data
    }

    /// Where the IP header starts.
    pub fn packet_offset(&self) -> (r: usize)
        ensures
            r == self@.packet_offset,
            self@.well_formed(),
    {
        proof {
            use_type_invariant(self);
        }
        self.packet_offset
    }

    /// Where the TCP header starts.
    pub fn segment_offset(&self) -> (r: usize)
        ensures
            r == self@.segment_offset,
            self@.well_formed(),
    {
        proof {
            use_type_invariant(self);
        }
        self.segment_offset
    }

    /// The IP version number, 4 or 6.
    pub fn ip_version(&self) -> (r: u8)
        ensures
            r == self@.ip_version.spec_number(),
            r == 4 || r == 6,
            self@.well_formed(),
    {
        proof {
            use_type_invariant(self);
        }
        self.ip_version.number()
    }

    /// Whether the TCP checksum has been validated.
    pub fn checksum_validated(&self) -> (r: bool)
        ensures
            r == self@.checksum_validated,
            self@.well_formed(),
    {
        proof {
            use_type_invariant(self);
        }
        self.validated_checksum
    }

    /// Records that the TCP checksum has been validated; nothing else changes.
    pub fn mark_checksum_validated(&mut self)
        ensures
            final(self)@ == (TcpSegmentModel { checksum_validated: true, ..old(self)@ }),
    {
        proof {
            use_type_invariant(&*self);
        }
        self.validated_checksum = true;
    }
}

} // verus!
