//! Frame server core: the one pipeline every ingress path feeds.
//!
//! `handle_message` takes the raw bytes of one frame, decodes them, routes
//! the command to the addressed subsystem and returns the reply frame;
//! protocol and routing failures become status replies and never a crash.
//! The network listener and the IPC bridge both hand their bytes here, so
//! both observe one consistent protocol and one consistent dispatch core.

use vstd::prelude::*;

use crate::codec::{
    decode, spec_encode_status, spec_frame_ok, spec_operand, Command, FRAME_LEN, STATUS_MALFORMED,
    STATUS_OUT_OF_RANGE, STATUS_UNSUPPORTED,
};
use crate::component::{component_wf, dispatch_cmd, inc_wrap, Component};

verus! {

/// The registry slot a frame addresses.
pub open spec fn spec_addr(f: Seq<u8>) -> int {
    f[0] as int
}

/// The reply to bytes that do not decode: their first two bytes are echoed
/// as address and opcode (zero where the input is too short) and the status
/// byte reports the malformed frame.
pub open spec fn spec_malformed_reply(f: Seq<u8>) -> Seq<u8> {
    spec_encode_status(
        if f.len() > 0 {
            f[0]
        } else {
            0
        },
        if f.len() > 1 {
            f[1]
        } else {
            0
        },
        STATUS_MALFORMED,
    )
}

/// Handle the bytes of one received frame: decode, route to the addressed
/// subsystem, dispatch under that subsystem's synchronization domain, and
/// encode the reply.  Every input yields exactly one reply frame; only the
/// addressed slot's state changes, and only when a handler ran.
pub fn handle_message(msg: &Vec<u8>, components: &mut Vec<Component>) -> (reply: Vec<u8>)
    requires
        forall|i: int|
            0 <= i < old(components)@.len() ==> component_wf(#[trigger] old(components)@[i]),
    ensures
        reply@.len() == FRAME_LEN,
        final(components)@.len() == old(components)@.len(),
        forall|i: int|
            0 <= i < final(components)@.len() ==> component_wf(#[trigger] final(components)@[i]),
        !spec_frame_ok(msg@) ==> {
            &&& final(components)@ == old(components)@
            &&& reply@ == spec_malformed_reply(msg@)
        },
        spec_frame_ok(msg@) && spec_addr(msg@) >= old(components)@.len() ==> {
            &&& final(components)@ == old(components)@
            &&& reply@ == spec_encode_status(msg@[0], msg@[1], STATUS_OUT_OF_RANGE)
        },
        spec_frame_ok(msg@) && spec_addr(msg@) < old(components)@.len() ==> {
            &&& forall|j: int|
                0 <= j < old(components)@.len() && j != spec_addr(msg@)
                    ==> #[trigger] final(components)@[j] == old(components)@[j]
            &&& (old(components)@[spec_addr(msg@)] is Root ==> {
                &&& final(components)@[spec_addr(msg@)] is Root
                &&& reply@ == spec_encode_status(msg@[0], msg@[1], STATUS_UNSUPPORTED)
            })
            &&& (old(components)@[spec_addr(msg@)] matches Component::Eps(e) ==> {
                &&& final(components)@[spec_addr(msg@)] matches Component::Eps(e2)
                    && e2.spec_state() == inc_wrap(e.spec_state()) && e2.spec_uart()
                    == e.spec_uart()
                &&& reply@ == spec_encode_status(msg@[0], msg@[1], inc_wrap(e.spec_state()))
            })
            &&& (old(components)@[spec_addr(msg@)] matches Component::Adcs(a) ==> {
                &&& final(components)@[spec_addr(msg@)] matches Component::Adcs(a2)
                    && a2.spec_port() == -a.spec_port()
                &&& reply@ == spec_encode_status(msg@[0], msg@[1], 42)
            })
            &&& (old(components)@[spec_addr(msg@)] matches Component::Dfgm(d) ==> {
                &&& final(components)@[spec_addr(msg@)] matches Component::Dfgm(d2)
                    && d2 == d.spec_dispatch(spec_operand(msg@))
                &&& reply@ == spec_encode_status(msg@[0], msg@[1], inc_wrap(d.spec_state()))
            })
        },
{
    let decoded = decode(msg);
    match decoded {
        Err(_) => {
            let a: u8 = if msg.len() > 0 {
                msg[0]
            } else {
                0
            };
            let o: u8 = if msg.len() > 1 {
                msg[1]
            } else {
                0
            };
            let probe = Command { address: a, opcode: o, operand: Vec::new() };
            probe.encode_status(STATUS_MALFORMED)
        },
        Ok(cmd) => {
            let idx = cmd.address as usize;
            if idx >= components.len() {
                return cmd.encode_status(STATUS_OUT_OF_RANGE);
            }
            let ghost before = components@;
            let mut target = components.remove(idx);
            let res = dispatch_cmd(&mut target, &cmd);
            components.insert(idx, target);
            proof {
                assert(components@ =~= before.update(idx as int, components@[idx as int]));
            }
            match res {
                Ok(f) => f,
                Err(_) => cmd.encode_status(STATUS_UNSUPPORTED),
            }
        },
    }
}

/// Connection policy of the request/reply loop: a session goes on only
/// after a full frame was read and the whole reply was written; a
/// zero-length or short read, like a failed write, ends it.
pub fn connection_should_continue(read_len: usize, write_ok: bool) -> (r: bool)
    ensures
        r <==> (write_ok && read_len == FRAME_LEN),
{
    write_ok && read_len == FRAME_LEN
}

} // verus!
