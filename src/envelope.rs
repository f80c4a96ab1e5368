//! What the network layer hands over, and the two adapters that turn it into
//! a located TCP segment.

use vstd::prelude::*;

use crate::buffer::PacketData;
use crate::segment::{locate_spec, result_model, TcpSegment, TcpSegmentResult};

verus! {

/// A parsed IPv4 packet: its bytes, where its header starts, and where its
/// payload starts (past the header and any options).
#[derive(Clone, Copy)]
pub struct Ipv4Packet<'packet> {
    pub data: PacketData<'packet>,
    pub packet_offset: usize,
    pub payload_offset: usize,
}

/// A parsed IPv6 packet: its bytes, where its header starts, and where the
/// payload after the fixed base header starts.
#[derive(Clone, Copy)]
pub struct Ipv6Packet<'packet> {
    pub data: PacketData<'packet>,
    pub packet_offset: usize,
    pub payload_offset: usize,
}

impl<'packet> TcpSegment<'packet> {
    /// Locates the TCP segment of an IPv4 packet, whose TCP header is taken to
    /// start where the packet's payload does.
    pub fn from_ipv4(packet: Ipv4Packet<'packet>) -> (r: TcpSegmentResult<'packet>)
        ensures
            result_model(r) == locate_spec(
                packet.data@,
                packet.packet_offset as nat,
                packet.payload_offset as nat,
            ),
    {
        TcpSegment::new(packet.data, packet.packet_offset, packet.payload_offset)
    }

    /// Locates the TCP segment of an IPv6 packet, whose TCP header is taken to
    /// start where the payload after the base header does.
    pub fn from_ipv6(packet: Ipv6Packet<'packet>) -> (r: TcpSegmentResult<'packet>)
        ensures
            result_model(r) == locate_spec(
                packet.data@,
                packet.packet_offset as nat,
                packet.payload_offset as nat,
            ),
    {
        TcpSegment::new(packet.data, packet.packet_offset, packet.payload_offset)
    }
}

} // verus!
