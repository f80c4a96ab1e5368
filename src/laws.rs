//! What the locator guarantees, stated over its model.

use vstd::prelude::*;

use crate::buffer::PacketDataModel;
use crate::segment::{
    locate_spec, TcpSegmentError, TcpSegmentModel, MIN_IP_HEADER_LEN, MIN_TCP_HEADER_LEN,
    TCP_PROTOCOL,
};
use crate::version::{high_nibble, IpVersion};

verus! {

/// A buffer too short to hold an IP header at `packet_offset` is malformed,
/// whatever its bytes and whatever the segment offset.
pub proof fn lemma_short_buffer_is_malformed(
    data: PacketDataModel,
    packet_offset: nat,
    segment_offset: nat,
)
    requires
        data.bytes.len() < packet_offset + MIN_IP_HEADER_LEN,
    ensures
        locate_spec(data, packet_offset, segment_offset) == Err::<TcpSegmentModel, _>(
            TcpSegmentError::MalformedHeader,
        ),
{
}

/// Once the IP header fits, a version nibble other than 4 or 6 is an
/// unsupported version.
pub proof fn lemma_unknown_version_is_unsupported(
    data: PacketDataModel,
    packet_offset: nat,
    segment_offset: nat,
)
    requires
        packet_offset + MIN_IP_HEADER_LEN <= data.bytes.len(),
        high_nibble(data.bytes[packet_offset as int]) != 4,
        high_nibble(data.bytes[packet_offset as int]) != 6,
    ensures
        locate_spec(data, packet_offset, segment_offset) == Err::<TcpSegmentModel, _>(
            TcpSegmentError::UnsupportedIpVersion,
        ),
{
}

/// An IPv4 header whose protocol byte (the tenth) is not TCP's names an
/// unsupported protocol.
pub proof fn lemma_ipv4_other_protocol_is_unsupported(
    data: PacketDataModel,
    packet_offset: nat,
    segment_offset: nat,
)
    requires
        packet_offset + MIN_IP_HEADER_LEN <= data.bytes.len(),
        high_nibble(data.bytes[packet_offset as int]) == 4,
        data.bytes[packet_offset + 9int] != TCP_PROTOCOL,
    ensures
        locate_spec(data, packet_offset, segment_offset) == Err::<TcpSegmentModel, _>(
            TcpSegmentError::UnsupportedProtocol,
        ),
{
}

/// An IPv6 header whose next-header byte (the seventh) is not TCP's names an
/// unsupported protocol; extension headers are not followed.
pub proof fn lemma_ipv6_other_next_header_is_unsupported(
    data: PacketDataModel,
    packet_offset: nat,
    segment_offset: nat,
)
    requires
        packet_offset + MIN_IP_HEADER_LEN <= data.bytes.len(),
        high_nibble(data.bytes[packet_offset as int]) == 6,
        data.bytes[packet_offset + 6int] != TCP_PROTOCOL,
    ensures
        locate_spec(data, packet_offset, segment_offset) == Err::<TcpSegmentModel, _>(
            TcpSegmentError::UnsupportedProtocol,
        ),
{
}

/// A well-formed IPv4 packet carrying TCP, with room for a TCP header at
/// `segment_offset`, yields a version-4 view over the same bytes at the given
/// offsets, its checksum not yet validated.
pub proof fn lemma_ipv4_tcp_is_located(
    data: PacketDataModel,
    packet_offset: nat,
    segment_offset: nat,
)
    requires
        packet_offset + MIN_IP_HEADER_LEN <= data.bytes.len(),
        high_nibble(data.bytes[packet_offset as int]) == 4,
        data.bytes[packet_offset + 9int] == TCP_PROTOCOL,
        segment_offset + MIN_TCP_HEADER_LEN <= data.bytes.len(),
    ensures
        locate_spec(data, packet_offset, segment_offset) matches Ok(m) && {
            &&& m.ip_version == IpVersion::V4
            &&& m.ip_version.spec_number() == 4
            &&& m.data == data
            &&& m.packet_offset == packet_offset
            &&& m.segment_offset == segment_offset
            &&& !m.checksum_validated
        },
{
}

/// Locating twice on the same bytes and offsets gives the same outcome, and a
/// located view carries the bytes exactly as they were handed over.
pub proof fn lemma_locate_idempotent(
    data: PacketDataModel,
    packet_offset: nat,
    segment_offset: nat,
    first: Result<TcpSegmentModel, TcpSegmentError>,
    second: Result<TcpSegmentModel, TcpSegmentError>,
)
    requires
        data.well_formed(),
        first == locate_spec(data, packet_offset, segment_offset),
        second == locate_spec(data, packet_offset, segment_offset),
    ensures
        first == second,
        first matches Ok(m) ==> m.data == data && m.well_formed(),
{
}

} // verus!
