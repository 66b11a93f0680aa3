use mavlink::common::{MavMessage, HEARTBEAT_DATA};
use mavlink::Message;
use mavrouter::framing::{parse_datagram, StreamParser, MAX_BUFFER_SIZE};
use mavrouter::mavlink_utils::{extract_target, target_fields, MavlinkVersion, MessageTarget};

fn heartbeat() -> MavMessage {
    MavMessage::HEARTBEAT(HEARTBEAT_DATA::default())
}

fn header(system_id: u8, component_id: u8, sequence: u8) -> mavlink::MavHeader {
    mavlink::MavHeader { system_id, component_id, sequence }
}

fn v2_bytes(h: mavlink::MavHeader) -> Vec<u8> {
    let mut buf = Vec::new();
    mavlink::write_v2_msg(&mut buf, h, &heartbeat()).expect("write V2 message");
    buf
}

fn v1_bytes(h: mavlink::MavHeader) -> Vec<u8> {
    let mut buf = Vec::new();
    mavlink::write_v1_msg(&mut buf, h, &heartbeat()).expect("write V1 message");
    buf
}

fn partial_packet() {
    let mut parser = StreamParser::new();
    let buf = v2_bytes(mavlink::MavHeader::default());

    let split_idx = buf.len() / 2;
    parser.push(&buf[..split_idx]);
    assert!(parser.parse_next().is_none());

    parser.push(&buf[split_idx..]);
    let res = parser.parse_next();
    assert!(res.is_some());
    assert_eq!(res.expect("Should have parsed packet").message.message_id(), 0);
}

fn v1_packet_parsing() {
    let mut parser = StreamParser::new();
    parser.push(&v1_bytes(header(1, 1, 0)));
    let res = parser.parse_next();
    assert!(res.is_some());
    let frame = res.expect("Should parse V1 packet");
    assert_eq!(frame.version, MavlinkVersion::V1);
    assert_eq!(frame.header.system_id, 1);
}

fn v2_packet_parsing() {
    let mut parser = StreamParser::new();
    parser.push(&v2_bytes(header(255, 190, 42)));
    let res = parser.parse_next();
    assert!(res.is_some());
    let frame = res.expect("Should parse V2 packet");
    assert_eq!(frame.version, MavlinkVersion::V2);
    assert_eq!(frame.header.system_id, 255);
    assert_eq!(frame.header.component_id, 190);
}

fn garbage_before_packet() {
    let mut parser = StreamParser::new();
    let buf = v2_bytes(mavlink::MavHeader::default());
    let mut garbage = vec![0x00, 0x11, 0x22, 0x33, 0x44];
    garbage.extend_from_slice(&buf);

    parser.push(&garbage);
    let res = parser.parse_next();
    assert!(res.is_some(), "Should skip garbage and find packet");
}

fn empty_buffer_returns_none() {
    let mut parser = StreamParser::new();
    assert!(parser.parse_next().is_none());
}

fn no_stx_clears_buffer() {
    let mut parser = StreamParser::new();
    parser.push(&[0x00, 0x11, 0x22, 0x33]);
    assert!(parser.parse_next().is_none());
    assert_eq!(parser.buffered_len(), 0);
}

fn multiple_packets_in_sequence() {
    let mut parser = StreamParser::new();
    let h = mavlink::MavHeader::default();
    let mut buf = Vec::new();
    mavlink::write_v2_msg(&mut buf, h, &heartbeat()).expect("write msg 1");
    mavlink::write_v2_msg(&mut buf, h, &heartbeat()).expect("write msg 2");
    mavlink::write_v2_msg(&mut buf, h, &heartbeat()).expect("write msg 3");

    parser.push(&buf);

    assert!(parser.parse_next().is_some());
    assert!(parser.parse_next().is_some());
    assert!(parser.parse_next().is_some());
    assert!(parser.parse_next().is_none());
}

fn default_trait() {
    let parser = StreamParser::default();
    assert_eq!(parser.buffered_len(), 0);
}

#[test]
fn framing_test_partial_packet() {
    partial_packet();
}

#[test]
fn tests_test_partial_packet() {
    partial_packet();
}

#[test]
fn framing_test_v1_packet_parsing() {
    v1_packet_parsing();
}

#[test]
fn tests_test_v1_packet_parsing() {
    v1_packet_parsing();
}

#[test]
fn framing_test_v2_packet_parsing() {
    v2_packet_parsing();
}

#[test]
fn tests_test_v2_packet_parsing() {
    v2_packet_parsing();
}

#[test]
fn framing_test_garbage_before_packet() {
    garbage_before_packet();
}

#[test]
fn tests_test_garbage_before_packet() {
    garbage_before_packet();
}

#[test]
fn framing_test_empty_buffer_returns_none() {
    empty_buffer_returns_none();
}

#[test]
fn tests_test_empty_buffer_returns_none() {
    empty_buffer_returns_none();
}

#[test]
fn framing_test_no_stx_clears_buffer() {
    no_stx_clears_buffer();
}

#[test]
fn tests_test_no_stx_clears_buffer() {
    no_stx_clears_buffer();
}

#[test]
fn framing_test_multiple_packets_in_sequence() {
    multiple_packets_in_sequence();
}

#[test]
fn tests_test_multiple_packets_in_sequence() {
    multiple_packets_in_sequence();
}

#[test]
fn framing_test_default_trait() {
    default_trait();
}

#[test]
fn tests_test_default_trait() {
    default_trait();
}

#[test]
fn test_max_buffer_size_overflow() {
    let mut parser = StreamParser::new();
    let chunk = vec![0xAA; 128 * 1024];
    for _ in 0..10 {
        parser.push(&chunk);
    }
    assert!(
        parser.buffered_len() <= MAX_BUFFER_SIZE,
        "Buffer should not exceed MAX_BUFFER_SIZE, got {}",
        parser.buffered_len()
    );
    assert!(parser.parse_next().is_none());
}

#[test]
fn test_interleaved_v1_v2() {
    let mut parser = StreamParser::new();
    parser.push(&v2_bytes(header(1, 1, 10)));
    parser.push(&v1_bytes(header(2, 2, 20)));

    let f1 = parser.parse_next().expect("should parse V2 frame");
    assert_eq!(f1.version, MavlinkVersion::V2);
    assert_eq!(f1.header.system_id, 1);
    assert_eq!(f1.message.message_id(), 0);

    let f2 = parser.parse_next().expect("should parse V1 frame");
    assert_eq!(f2.header.system_id, 2);
    assert_eq!(f2.message.message_id(), 0);

    assert!(parser.parse_next().is_none());
}

#[test]
fn test_stream_parser_buffer_overflow() {
    let mut parser = StreamParser::new();
    let garbage = vec![0x00u8; 100_000];
    for _ in 0..20 {
        parser.push(&garbage);
        let _ = parser.parse_next();
    }
    parser.push(&v2_bytes(header(1, 1, 0)));
    assert!(parser.parse_next().is_some());
}

#[test]
fn test_stream_parser_malformed_recovery() {
    let mut parser = StreamParser::new();
    let valid_packet = v2_bytes(header(1, 1, 0));
    let mut malformed = valid_packet.clone();
    let last_idx = malformed.len() - 1;
    malformed[last_idx] ^= 0xFF;

    let mut stream = Vec::new();
    stream.extend_from_slice(&malformed);
    stream.extend_from_slice(&valid_packet);
    stream.extend_from_slice(&malformed);
    stream.extend_from_slice(&valid_packet);

    parser.push(&stream);

    let mut valid_count = 0;
    while parser.parse_next().is_some() {
        valid_count += 1;
    }
    assert_eq!(valid_count, 2);
}

#[test]
fn test_stream_parser_stx_in_header() {
    let mut parser = StreamParser::new();
    parser.push(&v2_bytes(header(0xFD, 0xFE, 0)));
    let result = parser.parse_next().expect("should parse");
    assert_eq!(result.header.system_id, 0xFD);
    assert_eq!(result.header.component_id, 0xFE);
}

#[test]
fn test_stream_parser_v1_v2_mixed() {
    let mut parser = StreamParser::new();
    let buf_v2 = v2_bytes(header(1, 1, 0));
    let buf_v1 = v1_bytes(header(1, 1, 0));

    let mut stream = Vec::new();
    stream.extend_from_slice(&buf_v2);
    stream.extend_from_slice(&buf_v1);
    stream.extend_from_slice(&buf_v2);
    stream.extend_from_slice(&buf_v1);

    parser.push(&stream);

    let mut v2_count = 0;
    let mut total = 0;
    while let Some(frame) = parser.parse_next() {
        total += 1;
        if frame.version == MavlinkVersion::V2 {
            v2_count += 1;
        }
    }
    assert!(total >= 2, "Should parse at least 2 packets, got {}", total);
    assert!(v2_count >= 2, "Should parse at least 2 V2 packets");
}

#[test]
fn raw_bytes_are_the_whole_frame() {
    let mut parser = StreamParser::new();
    let bytes = v2_bytes(header(7, 8, 9));
    let mut stream = vec![0x01, 0x02];
    stream.extend_from_slice(&bytes);
    parser.push(&stream);
    let frame = parser.parse_next().expect("frame");
    assert_eq!(frame.raw_bytes.len(), bytes.len());
    assert_eq!(&frame.raw_bytes[..], &bytes[..]);
    assert_eq!(frame.header.sequence, 9);
    assert_eq!(parser.buffered_len(), 0);
}

#[test]
fn partial_frame_stays_buffered_from_start_byte() {
    let mut parser = StreamParser::new();
    let bytes = v2_bytes(header(1, 1, 0));
    let mut stream = vec![0x10, 0x20, 0x30];
    stream.extend_from_slice(&bytes[..5]);
    parser.push(&stream);
    assert!(parser.parse_next().is_none());
    assert_eq!(parser.buffered_len(), 5);
}

#[test]
fn push_clears_the_buffer_beyond_limit() {
    let mut parser = StreamParser::new();
    parser.push(&vec![0u8; MAX_BUFFER_SIZE - 10]);
    parser.push(&[1u8; 10]);
    assert_eq!(parser.buffered_len(), MAX_BUFFER_SIZE);
    parser.push(&[1u8; 30]);
    assert_eq!(parser.buffered_len(), 30);
    parser.push(&vec![2u8; MAX_BUFFER_SIZE + 5]);
    assert_eq!(parser.buffered_len(), MAX_BUFFER_SIZE + 5);
}

#[test]
fn datagram_v2_and_v1_decode_from_first_byte() {
    let v2 = v2_bytes(header(3, 4, 5));
    let f = parse_datagram(&v2).expect("v2 datagram");
    assert_eq!(f.version, MavlinkVersion::V2);
    assert_eq!(f.header.system_id, 3);
    assert_eq!(&f.raw_bytes[..], &v2[..]);

    let v1 = v1_bytes(header(6, 7, 8));
    let f = parse_datagram(&v1).expect("v1 datagram");
    assert_eq!(f.version, MavlinkVersion::V1);
    assert_eq!(f.header.component_id, 7);
    assert_eq!(f.raw_bytes.len(), v1.len());

    let mut two = v2.clone();
    two.extend_from_slice(&v1);
    let f = parse_datagram(&two).expect("first frame of datagram");
    assert_eq!(f.raw_bytes.len(), v2.len());

    assert!(parse_datagram(&[0x01, 0x02, 0x03]).is_none());
    assert!(parse_datagram(&v2[..4]).is_none());
}

#[test]
fn frame_carries_the_decoded_message_id() {
    let ping = MavMessage::PING(mavlink::common::PING_DATA {
        time_usec: 1,
        seq: 2,
        target_system: 3,
        target_component: 4,
    });
    let mut v2 = Vec::new();
    mavlink::write_v2_msg(&mut v2, header(1, 1, 0), &ping).expect("write V2 message");
    let mut v1 = Vec::new();
    mavlink::write_v1_msg(&mut v1, header(1, 1, 1), &ping).expect("write V1 message");

    let mut parser = StreamParser::new();
    parser.push(&v2);
    parser.push(&v1);
    let f2 = parser.parse_next().expect("V2 PING");
    assert_eq!(f2.message_id, 4);
    assert_eq!(f2.message.message_id(), f2.message_id);
    let f1 = parser.parse_next().expect("V1 PING");
    assert_eq!(f1.version, MavlinkVersion::V1);
    assert_eq!(f1.message_id, 4);

    let d = parse_datagram(&v2).expect("datagram PING");
    assert_eq!(d.message_id, 4);
    let target = extract_target(&target_fields(&d.message));
    assert_eq!(target, MessageTarget { system_id: 3, component_id: 4 });
}
