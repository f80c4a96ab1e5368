use tcp_segment::buffer::PacketData;
use tcp_segment::envelope::{Ipv4Packet, Ipv6Packet};
use tcp_segment::segment::{TcpSegment, TcpSegmentError};
use tcp_segment::version::IpVersion;

fn ipv4_tcp(len: usize) -> Vec<u8> {
    let mut b = vec![0u8; len];
    b[0] = 0x45;
    b[9] = 6;
    b
}

fn ipv6_tcp(len: usize) -> Vec<u8> {
    let mut b = vec![0u8; len];
    b[0] = 0x60;
    b[6] = 6;
    b
}

fn error_of(bytes: &[u8], packet_offset: usize, segment_offset: usize) -> TcpSegmentError {
    match TcpSegment::new(PacketData::from_bytes(bytes), packet_offset, segment_offset) {
        Ok(_) => panic!("expected an error"),
        Err(e) => e,
    }
}

#[test]
fn ipv4_forty_bytes_is_located() {
    let b = ipv4_tcp(40);
    let s = TcpSegment::new(PacketData::from_bytes(&b), 0, 20).unwrap();
    assert_eq!(s.packet_offset(), 0);
    assert_eq!(s.segment_offset(), 20);
    assert_eq!(s.ip_version(), 4);
    assert!(!s.checksum_validated());
    assert_eq!(s.data().len(), 40);
    assert!(std::ptr::eq(s.data().as_slice(), b.as_slice()));
}

#[test]
fn ipv4_thirty_nine_bytes_is_malformed() {
    let b = ipv4_tcp(39);
    assert_eq!(error_of(&b, 0, 20), TcpSegmentError::MalformedHeader);
}

#[test]
fn buffer_shorter_than_ip_header_is_malformed() {
    let b = ipv4_tcp(30);
    assert_eq!(error_of(&b, 11, 0), TcpSegmentError::MalformedHeader);
    assert_eq!(error_of(&[], 0, 0), TcpSegmentError::MalformedHeader);
    assert_eq!(error_of(&b[..19], 0, 0), TcpSegmentError::MalformedHeader);
}

#[test]
fn huge_offsets_are_malformed_not_overflowing() {
    let b = ipv4_tcp(40);
    assert_eq!(error_of(&b, usize::MAX, 0), TcpSegmentError::MalformedHeader);
    assert_eq!(error_of(&b, 0, usize::MAX), TcpSegmentError::MalformedHeader);
    assert_eq!(error_of(&b, 0, usize::MAX - 19), TcpSegmentError::MalformedHeader);
}

#[test]
fn other_version_nibbles_are_unsupported() {
    for first in [0x00u8, 0x05, 0x35, 0x54, 0xF4, 0x70] {
        let mut b = ipv4_tcp(40);
        b[0] = first;
        b[6] = 6;
        assert_eq!(error_of(&b, 0, 20), TcpSegmentError::UnsupportedIpVersion);
    }
}

#[test]
fn version_nibble_is_the_high_one() {
    assert_eq!(IpVersion::from_header_byte(0x45), Some(IpVersion::V4));
    assert_eq!(IpVersion::from_header_byte(0x60), Some(IpVersion::V6));
    assert_eq!(IpVersion::from_header_byte(0x04), None);
    assert_eq!(IpVersion::from_header_byte(0x06), None);
    assert_eq!(IpVersion::from_header_byte(0x4F), Some(IpVersion::V4));
    assert_eq!(IpVersion::V4.number(), 4);
    assert_eq!(IpVersion::V6.number(), 6);
    assert_eq!(IpVersion::V4.protocol_field_offset(), 9);
    assert_eq!(IpVersion::V6.protocol_field_offset(), 6);
}

#[test]
fn ipv4_other_protocol_is_unsupported() {
    let mut b = ipv4_tcp(40);
    b[9] = 17;
    b[6] = 6;
    assert_eq!(error_of(&b, 0, 20), TcpSegmentError::UnsupportedProtocol);
}

#[test]
fn ipv6_other_next_header_is_unsupported() {
    let mut b = ipv6_tcp(60);
    b[6] = 0;
    b[9] = 6;
    assert_eq!(error_of(&b, 0, 40), TcpSegmentError::UnsupportedProtocol);
    b[6] = 43;
    assert_eq!(error_of(&b, 0, 40), TcpSegmentError::UnsupportedProtocol);
}

#[test]
fn ipv6_tcp_is_located() {
    let b = ipv6_tcp(60);
    let s = TcpSegment::new(PacketData::from_bytes(&b), 0, 40).unwrap();
    assert_eq!(s.ip_version(), 6);
    assert_eq!(s.packet_offset(), 0);
    assert_eq!(s.segment_offset(), 40);
    assert!(!s.checksum_validated());
}

#[test]
fn tcp_header_exactly_fitting_is_located() {
    let b = ipv4_tcp(40);
    assert!(TcpSegment::new(PacketData::from_bytes(&b), 0, 20).is_ok());
    let b = ipv4_tcp(41);
    assert!(TcpSegment::new(PacketData::from_bytes(&b), 0, 20).is_ok());
    assert_eq!(error_of(&b, 0, 22), TcpSegmentError::MalformedHeader);
}

#[test]
fn nonzero_packet_offset_reads_header_there() {
    let mut b = vec![0u8; 14 + 20 + 20];
    b[14] = 0x45;
    b[14 + 9] = 6;
    let s = TcpSegment::new(PacketData::from_bytes(&b), 14, 34).unwrap();
    assert_eq!(s.packet_offset(), 14);
    assert_eq!(s.segment_offset(), 34);
    assert_eq!(s.ip_version(), 4);
    assert_eq!(error_of(&b, 0, 34), TcpSegmentError::UnsupportedIpVersion);
}

#[test]
fn locating_twice_gives_the_same_view() {
    let b = ipv4_tcp(48);
    let copy = b.clone();
    let d = PacketData::from_bytes(&b);
    let first = TcpSegment::new(d, 0, 24).unwrap();
    let second = TcpSegment::new(d, 0, 24).unwrap();
    assert_eq!(first.packet_offset(), second.packet_offset());
    assert_eq!(first.segment_offset(), second.segment_offset());
    assert_eq!(first.ip_version(), second.ip_version());
    assert_eq!(first.checksum_validated(), second.checksum_validated());
    assert_eq!(first.data().as_slice(), second.data().as_slice());
    assert_eq!(b, copy);
    let mut bad = ipv4_tcp(40);
    bad[9] = 1;
    assert_eq!(error_of(&bad, 0, 20), error_of(&bad, 0, 20));
}

#[test]
fn checksum_flag_can_be_set() {
    let b = ipv4_tcp(40);
    let mut s = TcpSegment::new(PacketData::from_bytes(&b), 0, 20).unwrap();
    s.mark_checksum_validated();
    assert!(s.checksum_validated());
    assert_eq!(s.packet_offset(), 0);
    assert_eq!(s.segment_offset(), 20);
    assert_eq!(s.ip_version(), 4);
}

#[test]
fn ipv4_adapter_uses_payload_offset() {
    let b = ipv4_tcp(40);
    let p = Ipv4Packet { data: PacketData::from_bytes(&b), packet_offset: 0, payload_offset: 20 };
    let s = TcpSegment::from_ipv4(p).unwrap();
    assert_eq!(s.packet_offset(), 0);
    assert_eq!(s.segment_offset(), 20);
    let p = Ipv4Packet { data: PacketData::from_bytes(&b), packet_offset: 0, payload_offset: 21 };
    assert_eq!(TcpSegment::from_ipv4(p).err(), Some(TcpSegmentError::MalformedHeader));
}

#[test]
fn ipv6_adapter_uses_payload_offset() {
    let b = ipv6_tcp(60);
    let p = Ipv6Packet { data: PacketData::from_bytes(&b), packet_offset: 0, payload_offset: 40 };
    let s = TcpSegment::from_ipv6(p).unwrap();
    assert_eq!(s.segment_offset(), 40);
    assert_eq!(s.ip_version(), 6);
    let v4 = ipv4_tcp(60);
    let p = Ipv6Packet { data: PacketData::from_bytes(&v4), packet_offset: 0, payload_offset: 40 };
    assert_eq!(TcpSegment::from_ipv6(p).unwrap().ip_version(), 4);
}

#[test]
fn packet_data_keeps_base_offset_within_bytes() {
    let b = [1u8, 2, 3];
    let d = PacketData::new(&b, 3).unwrap();
    assert_eq!(d.base_offset(), 3);
    assert_eq!(d.len(), 3);
    assert_eq!(d.byte(1), 2);
    assert!(PacketData::new(&b, 4).is_none());
    assert_eq!(PacketData::from_bytes(&b).base_offset(), 0);
}
