//! Frame codec: the fixed-size wire frame shared by every ingress path.
//!
//! A frame is exactly `FRAME_LEN` bytes: one address byte, one opcode byte,
//! one operand-length byte, up to `MAX_OPERAND_LEN` operand bytes, and zero
//! padding.  `decode` turns arbitrary bytes into a `Command` or rejects them
//! as malformed; `encode_status` builds the uniform single-status-byte reply
//! frame.  Both are pure and are used unchanged by the network server and by
//! the IPC bridge.

use vstd::prelude::*;

verus! {

/// Length in bytes of every frame read or written on any transport.
pub const FRAME_LEN: usize = 128;

/// Greatest operand length a well-formed frame may declare.
pub const MAX_OPERAND_LEN: usize = 64;

/// Offset of the first operand byte: address, opcode and operand length
/// come first.
pub const HEADER_LEN: usize = 3;

/// Status byte of a reply to a frame that could not be decoded.
pub const STATUS_MALFORMED: u8 = 254;

/// Status byte of a reply to a command whose address is outside the registry.
pub const STATUS_OUT_OF_RANGE: u8 = 253;

/// Status byte of a reply from the unrecognized/root subsystem.
pub const STATUS_UNSUPPORTED: u8 = 255;

/// Decoding failure: the bytes do not form a well-formed frame.
#[derive(Debug)]
pub enum CodecError {
    MalformedFrame,
}

/// The decoded view of a frame: target subsystem, operation code, operand.
pub struct Command {
    pub address: u8,
    pub opcode: u8,
    pub operand: Vec<u8>,
}

impl Command {
    /// A command never carries more operand bytes than a frame can declare.
    pub open spec fn valid(self) -> bool {
        self.operand@.len() <= MAX_OPERAND_LEN
    }

    /// The operand length a frame for this command declares: always the
    /// operand's true length.
    pub fn operand_len(&self) -> (r: u8)
        requires
            self.valid(),
        ensures
            r as int == self.operand@.len(),
    {
        self.operand.len() as u8
    }
}

/// Whether a byte sequence is a well-formed frame: exactly `FRAME_LEN` bytes
/// and a declared operand length within bounds.
pub open spec fn spec_frame_ok(f: Seq<u8>) -> bool {
    &&& f.len() == FRAME_LEN
    &&& f[2] as int <= MAX_OPERAND_LEN as int
}

/// The operand bytes a well-formed frame carries.
pub open spec fn spec_operand(f: Seq<u8>) -> Seq<u8> {
    f.subrange(HEADER_LEN as int, HEADER_LEN as int + f[2] as int)
}

/// The status-reply frame for a command: the command's address and opcode,
/// an operand of length one holding the status byte, zero padding.
pub open spec fn spec_encode_status(address: u8, opcode: u8, status: u8) -> Seq<u8> {
    Seq::new(
        FRAME_LEN as nat,
        |i: int|
            if i == 0 {
                address
            } else if i == 1 {
                opcode
            } else if i == 2 {
                1u8
            } else if i == 3 {
                status
            } else {
                0u8
            },
    )
}

/// The status byte carried by a status-reply frame.
pub open spec fn spec_status_byte(f: Seq<u8>) -> u8 {
    spec_operand(f)[0]
}

/// Decode a frame into a command.
///
/// Succeeds exactly on well-formed frames; never panics on arbitrary bytes.
pub fn decode(frame: &Vec<u8>) -> (r: Result<Command, CodecError>)
    ensures
        r is Ok <==> spec_frame_ok(frame@),
        r matches Ok(c) ==> {
            &&& c.address == frame@[0]
            &&& c.opcode == frame@[1]
            &&& c.operand@ == spec_operand(frame@)
            &&& c.valid()
        },
        r matches Err(e) ==> e is MalformedFrame,
{
    if frame.len() != FRAME_LEN {
        return Err(CodecError::MalformedFrame);
    }
    let oplen: usize = frame[2] as usize;
    if oplen > MAX_OPERAND_LEN {
        return Err(CodecError::MalformedFrame);
    }
    let mut operand: Vec<u8> = Vec::new();
    let mut i: usize = 0;
    while i < oplen
        invariant
            i <= oplen,
            oplen <= MAX_OPERAND_LEN,
            frame@.len() == FRAME_LEN,
            oplen == frame@[2] as int,
            operand@ =~= frame@.subrange(HEADER_LEN as int, HEADER_LEN as int + i as int),
        decreases oplen - i,
    {
        operand.push(frame[HEADER_LEN + i]);
        i += 1;
    }
    proof {
        assert(operand@ =~= spec_operand(frame@));
    }
    Ok(Command { address: frame[0], opcode: frame[1], operand })
}

impl Command {
    /// Encode the uniform status reply for this command: always succeeds,
    /// deterministic, padded to `FRAME_LEN`.
    pub fn encode_status(&self, status: u8) -> (f: Vec<u8>)
        ensures
            f@ == spec_encode_status(self.address, self.opcode, status),
            f@.len() == FRAME_LEN,
    {
        let mut f: Vec<u8> = Vec::new();
        f.push(self.address);
        f.push(self.opcode);
        f.push(1);
        f.push(status);
        while f.len() < FRAME_LEN
            invariant
                4 <= f@.len() <= FRAME_LEN,
                forall|i: int|
                    0 <= i < f@.len() ==> f@[i] == spec_encode_status(
                        self.address,
                        self.opcode,
                        status,
                    )[i],
            decreases FRAME_LEN - f@.len(),
        {
            f.push(0);
        }
        proof {
            assert(f@ =~= spec_encode_status(self.address, self.opcode, status));
        }
        f
    }
}

/// Framing round trip: a status reply decodes as a well-formed frame that
/// echoes the command's address and opcode and carries exactly the status
/// byte as its operand.
pub proof fn lemma_status_round_trip(address: u8, opcode: u8, status: u8)
    ensures
        spec_frame_ok(spec_encode_status(address, opcode, status)),
        spec_operand(spec_encode_status(address, opcode, status)) =~= seq![status],
        spec_status_byte(spec_encode_status(address, opcode, status)) == status,
        spec_encode_status(address, opcode, status)[0] == address,
        spec_encode_status(address, opcode, status)[1] == opcode,
{
    let f = spec_encode_status(address, opcode, status);
    assert(f[2] == 1u8);
    assert(spec_operand(f) =~= seq![status]);
}

/// A frame whose declared operand length exceeds `MAX_OPERAND_LEN` is never
/// well-formed, whatever its other bytes hold.
pub proof fn lemma_oversize_operand_rejected(f: Seq<u8>)
    requires
        f.len() == FRAME_LEN,
        f[2] as int > MAX_OPERAND_LEN as int,
    ensures
        !spec_frame_ok(f),
{
}

} // verus!
