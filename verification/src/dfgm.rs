//! DFGM subsystem: a magnetometer-class telemetry payload.
//!
//! The handler interprets a decimal port operand, keeps a monotonic dispatch
//! counter, and owns the decision of the telemetry-ingestion loop: which of
//! the bytes received on its transport are appended to the durable sink.
//! The transport itself (a network stream) and the sink live with the
//! embedding process; both hand plain bytes to the functions here.

use vstd::prelude::*;

use crate::codec::{spec_encode_status, Command};
use crate::component::{inc_wrap, DispatchError};

verus! {

/// Native packet size of the DFGM telemetry stream; the ingestion loop
/// receives into a buffer of this size.
pub const DFGM_PACKET_SIZE: usize = 1250;

/// Whether every byte of `s` is an ASCII decimal digit.
pub open spec fn is_digit_seq(s: Seq<u8>) -> bool {
    forall|i: int| 0 <= i < s.len() ==> 48 <= #[trigger] s[i] <= 57
}

/// The number written in `s` as ASCII decimal digits, most significant first.
pub open spec fn dec_value(s: Seq<u8>) -> int
    decreases s.len(),
{
    if s.len() == 0 {
        0
    } else {
        dec_value(s.drop_last()) * 10 + (s.last() - 48)
    }
}

pub proof fn lemma_dec_value_nonneg(s: Seq<u8>)
    requires
        is_digit_seq(s),
    ensures
        dec_value(s) >= 0,
    decreases s.len(),
{
    if s.len() > 0 {
        assert(is_digit_seq(s.drop_last()));
        lemma_dec_value_nonneg(s.drop_last());
    }
}

/// Parse an ASCII decimal number into a `u16`.
///
/// Succeeds exactly when the bytes are non-empty, all digits, and the value
/// fits; leading zeros are accepted.
pub fn parse_u16(s: &Vec<u8>) -> (r: Option<u16>)
    ensures
        r is Some <==> (s@.len() > 0 && is_digit_seq(s@) && dec_value(s@) <= u16::MAX),
        r matches Some(v) ==> v == dec_value(s@),
{
    if s.len() == 0 {
        return None;
    }
    let mut acc: u32 = 0;
    let mut i: usize = 0;
    while i < s.len()
        invariant
            0 < s@.len(),
            i <= s@.len(),
            is_digit_seq(s@.subrange(0, i as int)),
            dec_value(s@.subrange(0, i as int)) <= u16::MAX ==> acc == dec_value(
                s@.subrange(0, i as int),
            ),
            dec_value(s@.subrange(0, i as int)) > u16::MAX ==> acc == 66000,
            acc <= 66000,
        decreases s@.len() - i,
    {
        let b = s[i];
        if b < 48 || b > 57 {
            assert(!is_digit_seq(s@));
            return None;
        }
        let ghost prefix = s@.subrange(0, i as int);
        let ghost extended = s@.subrange(0, i as int + 1);
        proof {
            assert(extended.drop_last() =~= prefix);
            assert(extended.last() == s@[i as int]);
            assert(is_digit_seq(extended));
            lemma_dec_value_nonneg(prefix);
        }
        acc = acc * 10 + ((b - 48) as u32);
        if acc > 65535 {
            acc = 66000;
        }
        i += 1;
    }
    proof {
        assert(s@.subrange(0, s@.len() as int) =~= s@);
    }
    if acc > 65535 {
        None
    } else {
        Some(acc as u16)
    }
}

/// The port the DFGM holds after a command with the given operand: a
/// parseable decimal operand reconfigures it, anything else leaves it.
pub open spec fn spec_new_port(port: u16, operand: Seq<u8>) -> u16 {
    if operand.len() > 0 && is_digit_seq(operand) && dec_value(operand) <= u16::MAX {
        dec_value(operand) as u16
    } else {
        port
    }
}

/// The DFGM subsystem's command-visible state.  Its live transport handle
/// and ingestion task are owned by the embedding process, which keeps them
/// under the same synchronization domain as this state.
pub struct Dfgm {
    port: u16,
    state: u8,
    listen_to_dfgm: bool,
}

impl Dfgm {
    /// The port the payload was last configured with.
    pub closed spec fn spec_port(self) -> u16 {
        self.port
    }

    /// The monotonic dispatch counter, advanced by every command.
    pub closed spec fn spec_state(self) -> u8 {
        self.state
    }

    /// Whether received telemetry is appended to the durable sink.
    pub closed spec fn spec_listen(self) -> bool {
        self.listen_to_dfgm
    }

    /// The state after dispatching a command with the given operand.
    pub closed spec fn spec_dispatch(self, operand: Seq<u8>) -> Dfgm {
        Dfgm {
            port: spec_new_port(self.port, operand),
            state: inc_wrap(self.state),
            listen_to_dfgm: self.listen_to_dfgm,
        }
    }

    pub fn new() -> (d: Dfgm)
        ensures
            d.spec_port() == 1,
            d.spec_state() == 0,
            d.spec_listen(),
    {
        Dfgm { port: 1, state: 0, listen_to_dfgm: true }
    }

    /// Build the DFGM in its startup state.  Attaching a live transport and
    /// starting the ingestion loop is the embedding process's part; a payload
    /// whose telemetry link is unavailable still accepts commands.
    pub fn configure() -> (d: Dfgm)
        ensures
            d.spec_port() == 1,
            d.spec_state() == 0,
            d.spec_listen(),
    {
        Dfgm::new()
    }

    pub fn port(&self) -> (r: u16)
        ensures
            r == self.spec_port(),
    {
        self.port
    }

    pub fn state(&self) -> (r: u8)
        ensures
            r == self.spec_state(),
    {
        self.state
    }

    pub fn listening(&self) -> (r: bool)
        ensures
            r == self.spec_listen(),
    {
        self.listen_to_dfgm
    }

    /// Handle one command: a non-empty operand is interpreted as a decimal
    /// port number (a parse failure is non-fatal and changes nothing), the
    /// dispatch counter advances, and the reply carries the post-increment
    /// counter as its status byte.
    pub fn dispatch(&mut self, cmd: &Command) -> (r: Result<Vec<u8>, DispatchError>)
        ensures
            *final(self) == old(self).spec_dispatch(cmd.operand@),
            final(self).spec_state() == inc_wrap(old(self).spec_state()),
            final(self).spec_port() == spec_new_port(old(self).spec_port(), cmd.operand@),
            final(self).spec_listen() == old(self).spec_listen(),
            r matches Ok(f) && f@ == spec_encode_status(
                cmd.address,
                cmd.opcode,
                inc_wrap(old(self).spec_state()),
            ),
    {
        if cmd.operand.len() > 0 {
            match parse_u16(&cmd.operand) {
                Some(p) => {
                    self.port = p;
                },
                None => {},
            }
        }
        if self.state == 255 {
            self.state = 0;
        } else {
            self.state = self.state + 1;
        }
        Ok(cmd.encode_status(self.state))
    }

    /// One iteration of the telemetry-ingestion decision: of the `n` bytes
    /// just received into `buffer`, return those to append to the durable
    /// sink — exactly the received bytes when the read was non-empty and
    /// ingestion is enabled, nothing otherwise.
    pub fn ingest_step(&self, buffer: &Vec<u8>, n: usize) -> (r: Option<Vec<u8>>)
        requires
            n <= buffer@.len(),
        ensures
            r is Some <==> (n > 0 && self.spec_listen()),
            r matches Some(d) ==> d@ == buffer@.subrange(0, n as int),
            r matches Some(d) ==> d@ == spec_ingest_chunk(*self, buffer@.subrange(0, n as int)),
            r is None ==> spec_ingest_chunk(*self, buffer@.subrange(0, n as int))
                == Seq::<u8>::empty(),
    {
        if n > 0 && self.listen_to_dfgm {
            let mut out: Vec<u8> = Vec::new();
            let mut i: usize = 0;
            while i < n
                invariant
                    i <= n,
                    n <= buffer@.len(),
                    out@ =~= buffer@.subrange(0, i as int),
                decreases n - i,
            {
                out.push(buffer[i]);
                i += 1;
            }
            proof {
                assert(out@ =~= buffer@.subrange(0, n as int));
            }
            Some(out)
        } else {
            None
        }
    }
}

/// The bytes one ingestion iteration appends to the durable sink.
pub open spec fn spec_ingest_chunk(d: Dfgm, data: Seq<u8>) -> Seq<u8> {
    if data.len() > 0 && d.spec_listen() {
        data
    } else {
        Seq::empty()
    }
}

/// One whole operation on the DFGM's synchronization domain.  Both the
/// command-dispatch path and the ingestion loop run their operations under
/// that domain, so an execution is a sequence of these events, each applied
/// atomically.
pub enum DfgmEvent {
    /// One dispatch invocation, carrying its command's operand.
    Dispatch { operand: Seq<u8> },
    /// One ingestion-loop iteration, carrying the bytes its receive returned.
    Ingest { data: Seq<u8> },
}

/// Everything a DFGM execution touches: the subsystem's command-visible
/// state and the durable sink its telemetry is appended to.
pub struct DfgmRun {
    pub dfgm: Dfgm,
    pub sink: Seq<u8>,
}

/// The effect of one event: a dispatch steps the subsystem state and leaves
/// the sink alone; an ingestion iteration appends its chunk to the sink and
/// leaves the subsystem state alone.
pub open spec fn apply_event(s: DfgmRun, e: DfgmEvent) -> DfgmRun {
    match e {
        DfgmEvent::Dispatch { operand } => DfgmRun {
            dfgm: s.dfgm.spec_dispatch(operand),
            sink: s.sink,
        },
        DfgmEvent::Ingest { data } => DfgmRun {
            dfgm: s.dfgm,
            sink: s.sink + spec_ingest_chunk(s.dfgm, data),
        },
    }
}

/// Sequential replay of a whole event sequence, first event first.
pub open spec fn replay(s: DfgmRun, es: Seq<DfgmEvent>) -> DfgmRun
    decreases es.len(),
{
    if es.len() == 0 {
        s
    } else {
        replay(apply_event(s, es[0]), es.drop_first())
    }
}

/// Whether `es` merges `xs` and `ys`, keeping the inner order of each.
pub open spec fn is_interleaving(es: Seq<DfgmEvent>, xs: Seq<DfgmEvent>, ys: Seq<DfgmEvent>) -> bool
    decreases es.len(),
{
    if xs.len() == 0 {
        es == ys
    } else if ys.len() == 0 {
        es == xs
    } else {
        es.len() > 0 && ((es[0] == xs[0] && is_interleaving(es.drop_first(), xs.drop_first(), ys))
            || (es[0] == ys[0] && is_interleaving(es.drop_first(), xs, ys.drop_first())))
    }
}

/// Ingestion iterations never write the command-visible state.
pub proof fn lemma_ingest_preserves_command_state(s: DfgmRun, es: Seq<DfgmEvent>)
    requires
        forall|i: int| 0 <= i < es.len() ==> #[trigger] es[i] is Ingest,
    ensures
        replay(s, es).dfgm == s.dfgm,
    decreases es.len(),
{
    if es.len() > 0 {
        assert(forall|i: int|
            0 <= i < es.drop_first().len() ==> #[trigger] es.drop_first()[i] is Ingest);
        lemma_ingest_preserves_command_state(apply_event(s, es[0]), es.drop_first());
    }
}

/// Replaying dispatches reads nothing but the command-visible state: from
/// equal subsystem states, equal subsystem states come out, whatever either
/// sink holds.
pub proof fn lemma_dispatch_replay_reads_only_command_state(
    s1: DfgmRun,
    s2: DfgmRun,
    es: Seq<DfgmEvent>,
)
    requires
        s1.dfgm == s2.dfgm,
        forall|i: int| 0 <= i < es.len() ==> #[trigger] es[i] is Dispatch,
    ensures
        replay(s1, es).dfgm == replay(s2, es).dfgm,
    decreases es.len(),
{
    if es.len() > 0 {
        assert(forall|i: int|
            0 <= i < es.drop_first().len() ==> #[trigger] es.drop_first()[i] is Dispatch);
        lemma_dispatch_replay_reads_only_command_state(
            apply_event(s1, es[0]),
            apply_event(s2, es[0]),
            es.drop_first(),
        );
    }
}

/// The durable sink is append-only: whatever events run, everything the sink
/// held before them is still there, unchanged, at the front.
pub proof fn lemma_sink_append_only(s: DfgmRun, es: Seq<DfgmEvent>)
    ensures
        replay(s, es).sink.len() >= s.sink.len(),
        replay(s, es).sink.subrange(0, s.sink.len() as int) == s.sink,
    decreases es.len(),
{
    if es.len() == 0 {
        assert(replay(s, es).sink.subrange(0, s.sink.len() as int) =~= s.sink);
    } else {
        let s1 = apply_event(s, es[0]);
        assert(s1.sink.subrange(0, s.sink.len() as int) =~= s.sink);
        lemma_sink_append_only(s1, es.drop_first());
        let r = replay(s1, es.drop_first()).sink;
        assert(r.subrange(0, s.sink.len() as int) =~= r.subrange(
            0,
            s1.sink.len() as int,
        ).subrange(0, s.sink.len() as int));
        assert(r.subrange(0, s.sink.len() as int) =~= s.sink);
    }
}

/// At most one writer: under the DFGM's synchronization domain an execution
/// is some interleaving of its dispatch invocations and its ingestion
/// iterations, each applied whole, and its final state is the sequential
/// replay of that interleaving.  However the two are interleaved, the
/// command-visible state that comes out is the state the dispatch
/// subsequence alone produces — ingestion never corrupts it.
pub proof fn lemma_dispatch_state_serializes(
    s: DfgmRun,
    es: Seq<DfgmEvent>,
    cmds: Seq<DfgmEvent>,
    ingests: Seq<DfgmEvent>,
)
    requires
        is_interleaving(es, cmds, ingests),
        forall|i: int| 0 <= i < cmds.len() ==> #[trigger] cmds[i] is Dispatch,
        forall|i: int| 0 <= i < ingests.len() ==> #[trigger] ingests[i] is Ingest,
    ensures
        replay(s, es).dfgm == replay(s, cmds).dfgm,
    decreases es.len(),
{
    if cmds.len() == 0 {
        lemma_ingest_preserves_command_state(s, es);
    } else if ingests.len() == 0 {
        assert(es == cmds);
    } else {
        assert(es.len() > 0);
        if es[0] == cmds[0] && is_interleaving(es.drop_first(), cmds.drop_first(), ingests) {
            assert(forall|i: int|
                0 <= i < cmds.drop_first().len() ==> #[trigger] cmds.drop_first()[i] is Dispatch);
            lemma_dispatch_state_serializes(
                apply_event(s, es[0]),
                es.drop_first(),
                cmds.drop_first(),
                ingests,
            );
        } else {
            assert(es[0] == ingests[0] && is_interleaving(
                es.drop_first(),
                cmds,
                ingests.drop_first(),
            ));
            assert(forall|i: int|
                0 <= i < ingests.drop_first().len()
                    ==> #[trigger] ingests.drop_first()[i] is Ingest);
            lemma_dispatch_state_serializes(
                apply_event(s, es[0]),
                es.drop_first(),
                cmds,
                ingests.drop_first(),
            );
            assert(apply_event(s, es[0]).dfgm == s.dfgm);
            lemma_dispatch_replay_reads_only_command_state(apply_event(s, es[0]), s, cmds);
        }
    }
}

} // verus!
