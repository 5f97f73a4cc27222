use obc_core::codec::Command;
use obc_core::dfgm::{parse_u16, Dfgm, DFGM_PACKET_SIZE};

#[test]
fn parse_plain_decimal() {
    assert_eq!(parse_u16(&b"1803".to_vec()), Some(1803));
    assert_eq!(parse_u16(&b"0".to_vec()), Some(0));
    assert_eq!(parse_u16(&b"65535".to_vec()), Some(65535));
}

#[test]
fn parse_rejects_overflow() {
    assert_eq!(parse_u16(&b"65536".to_vec()), None);
    assert_eq!(parse_u16(&b"99999999999999999999".to_vec()), None);
}

#[test]
fn parse_accepts_leading_zeros() {
    assert_eq!(parse_u16(&b"00042".to_vec()), Some(42));
    assert_eq!(parse_u16(&b"0000000000000065535".to_vec()), Some(65535));
    assert_eq!(parse_u16(&b"0000000000000065536".to_vec()), None);
}

#[test]
fn parse_rejects_non_digits() {
    assert_eq!(parse_u16(&b"".to_vec()), None);
    assert_eq!(parse_u16(&b"18x3".to_vec()), None);
    assert_eq!(parse_u16(&b"-5".to_vec()), None);
    assert_eq!(parse_u16(&b" 42".to_vec()), None);
    assert_eq!(parse_u16(&b"+42".to_vec()), None);
}

#[test]
fn dfgm_startup_state() {
    let d = Dfgm::configure();
    assert_eq!(d.port(), 1);
    assert_eq!(d.state(), 0);
    assert!(d.listening());
    assert_eq!(DFGM_PACKET_SIZE, 1250);
}

#[test]
fn ingest_appends_received_bytes_when_listening() {
    let d = Dfgm::configure();
    let mut buffer = vec![0u8; DFGM_PACKET_SIZE];
    buffer[0] = 0xDE;
    buffer[1] = 0xAD;
    let chunk = d.ingest_step(&buffer, 2).unwrap();
    assert_eq!(chunk, vec![0xDE, 0xAD]);
}

#[test]
fn ingest_skips_empty_read() {
    let d = Dfgm::configure();
    let buffer = vec![0u8; DFGM_PACKET_SIZE];
    assert!(d.ingest_step(&buffer, 0).is_none());
}

#[test]
fn interleaved_ingest_never_corrupts_dispatch_state() {
    let mut d = Dfgm::configure();
    let mut sink: Vec<u8> = Vec::new();
    let buffer = vec![7u8; 16];
    let cmd1 = Command { address: 2, opcode: 1, operand: b"1803".to_vec() };
    let cmd2 = Command { address: 2, opcode: 0, operand: Vec::new() };

    // one interleaving of two dispatch invocations and three ingestion reads
    if let Some(c) = d.ingest_step(&buffer, 4) {
        sink.extend_from_slice(&c);
    }
    d.dispatch(&cmd1).unwrap();
    if let Some(c) = d.ingest_step(&buffer, 0) {
        sink.extend_from_slice(&c);
    }
    d.dispatch(&cmd2).unwrap();
    if let Some(c) = d.ingest_step(&buffer, 2) {
        sink.extend_from_slice(&c);
    }

    // the command-visible state equals the dispatch subsequence replayed alone
    let mut replayed = Dfgm::configure();
    replayed.dispatch(&cmd1).unwrap();
    replayed.dispatch(&cmd2).unwrap();
    assert_eq!(d.port(), replayed.port());
    assert_eq!(d.state(), replayed.state());
    assert_eq!(d.listening(), replayed.listening());

    // and the sink holds exactly the non-empty reads, in order
    assert_eq!(sink, vec![7u8; 6]);
}

#[test]
fn ingest_full_packet() {
    let d = Dfgm::configure();
    let buffer: Vec<u8> = (0..DFGM_PACKET_SIZE).map(|i| (i % 251) as u8).collect();
    let chunk = d.ingest_step(&buffer, DFGM_PACKET_SIZE).unwrap();
    assert_eq!(chunk, buffer);
}
