use obc_core::codec::{
    decode, Command, CodecError, FRAME_LEN, HEADER_LEN, MAX_OPERAND_LEN, STATUS_MALFORMED,
};

fn frame_with(address: u8, opcode: u8, operand: &[u8]) -> Vec<u8> {
    let mut f = vec![0u8; FRAME_LEN];
    f[0] = address;
    f[1] = opcode;
    f[2] = operand.len() as u8;
    f[HEADER_LEN..HEADER_LEN + operand.len()].copy_from_slice(operand);
    f
}

#[test]
fn status_reply_layout() {
    let cmd = Command { address: 5, opcode: 9, operand: Vec::new() };
    let f = cmd.encode_status(7);
    assert_eq!(f.len(), FRAME_LEN);
    assert_eq!(f[0], 5);
    assert_eq!(f[1], 9);
    assert_eq!(f[2], 1);
    assert_eq!(f[3], 7);
    for i in 4..FRAME_LEN {
        assert_eq!(f[i], 0);
    }
}

#[test]
fn status_round_trip() {
    let cmd = Command { address: 5, opcode: 9, operand: b"1803".to_vec() };
    let f = cmd.encode_status(7);
    let c = decode(&f).unwrap();
    assert_eq!(c.address, 5);
    assert_eq!(c.opcode, 9);
    assert_eq!(c.operand, vec![7]);
}

#[test]
fn decode_extracts_operand() {
    let f = frame_with(2, 1, b"1803");
    let c = decode(&f).unwrap();
    assert_eq!(c.address, 2);
    assert_eq!(c.opcode, 1);
    assert_eq!(c.operand, b"1803".to_vec());
}

#[test]
fn decode_accepts_largest_operand() {
    let operand = vec![0xABu8; MAX_OPERAND_LEN];
    let f = frame_with(0, 0, &operand);
    let c = decode(&f).unwrap();
    assert_eq!(c.operand.len(), MAX_OPERAND_LEN);
    assert_eq!(c.operand, operand);
}

#[test]
fn oversize_operand_len_is_malformed() {
    let mut f = vec![0u8; FRAME_LEN];
    f[2] = 200;
    let r = decode(&f);
    assert!(matches!(r, Err(CodecError::MalformedFrame)));
}

#[test]
fn short_frame_is_malformed() {
    let f = vec![0u8; 10];
    assert!(matches!(decode(&f), Err(CodecError::MalformedFrame)));
    let long = vec![0u8; FRAME_LEN + 1];
    assert!(matches!(decode(&long), Err(CodecError::MalformedFrame)));
    let empty: Vec<u8> = Vec::new();
    assert!(matches!(decode(&empty), Err(CodecError::MalformedFrame)));
}

#[test]
fn malformed_status_code_is_distinct() {
    assert_ne!(STATUS_MALFORMED, 0);
    assert_eq!(STATUS_MALFORMED, 254);
}
