//! The receiver's side of the transfer: ordering enforcement,
//! completion detection and staleness accounting. The loop around it
//! polls the slot, creates and appends to the output file and performs
//! the sleeps; every acceptance decision is made here.
use crate::packet::{Packet, PacketView};
use vstd::prelude::*;

verus! {

/// Staleness threshold: once this much time passes without an accepted
/// block, a stall warning is due and the clock starts over.
pub const STALE_THRESHOLD_MS: u64 = 10000;

/// Safety margin subtracted from the sender's announced pacing interval
/// to account for one-way announcement latency.
pub const START_MARGIN_MS: u32 = 150;

/// Coarse poll interval while no transfer is active.
pub const IDLE_POLL_MS: u64 = 1000;

/// Where the receiver stands: waiting for an announcement, receiving
/// blocks, done, or aborted on a local I/O failure.
#[derive(Debug, PartialEq, Eq, Clone, Copy)]
pub enum RecvPhase {
    Waiting,
    Receiving,
    Completed,
    Aborted,
}

/// The receiver's state. A session begins with the first accepted
/// `Start` and ends at `Completed` or `Aborted`.
#[verifier::ext_equal]
pub struct Receiver {
    /// Current phase of the session.
    pub phase: RecvPhase,
    /// The receiver's poll interval: the configured timeout while
    /// waiting, then, once a session starts, the interval derived from
    /// the sender's announced pacing interval. It is what the loop
    /// sleeps after each `Data` block, and what the staleness clock
    /// advances by per rejected block.
    pub poll_ms: u64,
    /// Index of the last accepted block; 0 before any block arrived.
    pub last_index: u64,
    /// Total byte count the `Start` packet announced.
    pub announced_length: u64,
    /// Bytes accepted so far.
    pub received_length: u64,
    /// Time since the last accepted block.
    pub stale_ms: u64,
}

/// What the loop around the receiver is to do after one packet.
#[derive(Debug, PartialEq, Eq)]
pub enum RecvAction {
    /// Nothing new; sleep the idle interval and poll again.
    SleepIdle,
    /// The packet was ignored; poll again right away.
    Ignore,
    /// Create the output file under this name, then report the outcome
    /// through `output_opened`.
    Open { name: String },
    /// Append this chunk to the output, then sleep the poll interval.
    Write { data: Vec<u8> },
    /// A duplicate or out-of-order block: write nothing, sleep the poll
    /// interval, and warn about a stalled transfer if `warn` is set.
    Reject { warn: bool },
    /// `End` seen before every announced byte arrived; keep polling.
    IgnoreEnd,
    /// Every announced byte arrived: flush and close the output. The
    /// transfer is complete.
    Finish,
}

/// Addition on the time and byte counters, capped instead of wrapping.
pub open spec fn sat_add_u64(a: u64, b: u64) -> u64 {
    if a + b > u64::MAX {
        u64::MAX
    } else {
        (a + b) as u64
    }
}

/// The poll interval derived from the sender's announced pacing
/// interval, less the safety margin.
pub open spec fn spec_adjusted_poll(timeout: u32) -> u64 {
    if timeout >= START_MARGIN_MS {
        (timeout - START_MARGIN_MS) as u64
    } else {
        0
    }
}

/// A fresh receiver, waiting for an announcement.
pub open spec fn spec_new_receiver(poll_timeout_ms: u64) -> Receiver {
    Receiver {
        phase: RecvPhase::Waiting,
        poll_ms: poll_timeout_ms,
        last_index: 0,
        announced_length: 0,
        received_length: 0,
        stale_ms: 0,
    }
}

/// Whether a receiving session accepts a `Data` block: only the block
/// exactly one past the last accepted one.
pub open spec fn spec_accepts(r: Receiver, index: u64) -> bool {
    r.phase is Receiving && index == r.last_index + 1
}

/// What the first `Start` does to a waiting receiver: the session
/// begins, the announced length is recorded, and the poll interval is
/// derived from the sender's pacing interval.
pub open spec fn spec_step_start(r: Receiver, length: u64, timeout: u32) -> Receiver {
    Receiver {
        phase: RecvPhase::Receiving,
        announced_length: length,
        poll_ms: spec_adjusted_poll(timeout),
        ..r
    }
}

/// What a `Data` block does to a receiving session: an accepted block
/// advances the index, counts its bytes and clears the staleness clock;
/// any other block only ages the staleness clock — which starts over
/// once it passes the threshold — and changes nothing else.
pub open spec fn spec_step_data(r: Receiver, index: u64, len: u64) -> Receiver
    recommends
        r.phase is Receiving,
{
    if spec_accepts(r, index) {
        Receiver {
            last_index: index,
            received_length: sat_add_u64(r.received_length, len),
            stale_ms: 0,
            ..r
        }
    } else {
        let aged = sat_add_u64(r.stale_ms, r.poll_ms);
        Receiver { stale_ms: if aged > STALE_THRESHOLD_MS { 0 } else { aged }, ..r }
    }
}

/// What `End` does to a receiving session: completion exactly when
/// every announced byte has arrived; otherwise nothing changes.
pub open spec fn spec_step_end(r: Receiver) -> Receiver
    recommends
        r.phase is Receiving,
{
    if r.received_length == r.announced_length {
        Receiver { phase: RecvPhase::Completed, ..r }
    } else {
        r
    }
}

impl Receiver {
    /// A fresh receiver polling at the given interval.
    pub fn new(poll_timeout_ms: u64) -> (r: Receiver)
        ensures
            r == spec_new_receiver(poll_timeout_ms),
    {
        Receiver {
            phase: RecvPhase::Waiting,
            poll_ms: poll_timeout_ms,
            last_index: 0,
            announced_length: 0,
            received_length: 0,
            stale_ms: 0,
        }
    }

    /// One polling step: the packet read from the slot goes in, the
    /// instruction for the loop comes out, and the state moves as the
    /// step functions say. A `Start` is honoured at most once per
    /// session; a `Data` block is accepted only in order; an `End` is
    /// honoured only once every announced byte has arrived.
    pub fn on_packet(&mut self, p: Packet) -> (a: RecvAction)
        requires
            old(self).phase is Waiting || old(self).phase is Receiving,
        ensures
            match p@ {
                PacketView::Noop => *final(self) == *old(self) && a is SleepIdle,
                PacketView::Start { name, length, timeout } => {
                    if old(self).phase is Waiting {
                        &&& *final(self) == spec_step_start(*old(self), length, timeout)
                        &&& (a matches RecvAction::Open { name: n } && n@ == name)
                    } else {
                        &&& *final(self) == *old(self)
                        &&& a is Ignore
                    }
                },
                PacketView::Data { index, data } => {
                    if old(self).phase is Waiting {
                        &&& *final(self) == *old(self)
                        &&& a is Ignore
                    } else {
                        &&& *final(self) == spec_step_data(*old(self), index, data.len() as u64)
                        &&& spec_accepts(*old(self), index) ==> (a matches RecvAction::Write {
                            data: d,
                        } && d@ == data)
                        &&& !spec_accepts(*old(self), index) ==> (a
                            matches RecvAction::Reject { warn } && (warn <==> sat_add_u64(
                            old(self).stale_ms,
                            old(self).poll_ms,
                        ) > STALE_THRESHOLD_MS))
                    }
                },
                PacketView::End => {
                    if old(self).phase is Waiting {
                        &&& *final(self) == *old(self)
                        &&& a is Ignore
                    } else {
                        &&& *final(self) == spec_step_end(*old(self))
                        &&& (a is Finish <==> old(self).received_length
                            == old(self).announced_length)
                        &&& (old(self).received_length != old(self).announced_length ==> a
                            is IgnoreEnd)
                    }
                },
            },
    {
        match p {
            Packet::Noop => RecvAction::SleepIdle,
            Packet::Start(x) => {
                match self.phase {
                    RecvPhase::Waiting => {
                        self.phase = RecvPhase::Receiving;
                        self.announced_length = x.length;
                        self.poll_ms = if x.timeout >= START_MARGIN_MS {
                            (x.timeout - START_MARGIN_MS) as u64
                        } else {
                            0
                        };
                        RecvAction::Open { name: x.name }
                    },
                    _ => RecvAction::Ignore,
                }
            },
            Packet::Data(x) => {
                match self.phase {
                    RecvPhase::Waiting => RecvAction::Ignore,
                    _ => {
                        if x.index >= 1 && x.index - 1 == self.last_index {
                            self.last_index = x.index;
                            self.received_length = self.received_length.saturating_add(
                                x.data.len() as u64,
                            );
                            self.stale_ms = 0;
                            RecvAction::Write { data: x.data }
                        } else {
                            let aged = self.stale_ms.saturating_add(self.poll_ms);
                            if aged > STALE_THRESHOLD_MS {
                                self.stale_ms = 0;
                                RecvAction::Reject { warn: true }
                            } else {
                                self.stale_ms = aged;
                                RecvAction::Reject { warn: false }
                            }
                        }
                    },
                }
            },
            Packet::End => {
                match self.phase {
                    RecvPhase::Waiting => RecvAction::Ignore,
                    _ => {
                        if self.received_length == self.announced_length {
                            self.phase = RecvPhase::Completed;
                            RecvAction::Finish
                        } else {
                            RecvAction::IgnoreEnd
                        }
                    },
                }
            },
        }
    }

    /// Reports the outcome of creating the output file after an `Open`
    /// action: failure aborts the session, success leaves it receiving.
    pub fn output_opened(&mut self, ok: bool)
        requires
            old(self).phase is Receiving,
        ensures
            ok ==> *final(self) == *old(self),
            !ok ==> *final(self) == (Receiver { phase: RecvPhase::Aborted, ..*old(self) }),
    {
        if !ok {
            self.phase = RecvPhase::Aborted;
        }
    }
}

/// The state after a sequence of `Data` blocks — each an index and a
/// byte count — delivered in the given order to a receiving session.
pub open spec fn spec_run_data(r: Receiver, blocks: Seq<(u64, u64)>) -> Receiver
    decreases blocks.len(),
{
    if blocks.len() == 0 {
        r
    } else {
        spec_run_data(spec_step_data(r, blocks[0].0, blocks[0].1), blocks.drop_first())
    }
}

/// The indices of the blocks a receiving session accepts out of a
/// delivered sequence, in order of acceptance.
pub open spec fn spec_accepted_indices(r: Receiver, blocks: Seq<(u64, u64)>) -> Seq<u64>
    decreases blocks.len(),
{
    if blocks.len() == 0 {
        Seq::empty()
    } else {
        let rest = spec_accepted_indices(
            spec_step_data(r, blocks[0].0, blocks[0].1),
            blocks.drop_first(),
        );
        if spec_accepts(r, blocks[0].0) {
            seq![blocks[0].0] + rest
        } else {
            rest
        }
    }
}

/// The byte count of the blocks a receiving session accepts out of a
/// delivered sequence.
pub open spec fn spec_accepted_total(r: Receiver, blocks: Seq<(u64, u64)>) -> int
    decreases blocks.len(),
{
    if blocks.len() == 0 {
        0
    } else {
        let rest = spec_accepted_total(
            spec_step_data(r, blocks[0].0, blocks[0].1),
            blocks.drop_first(),
        );
        if spec_accepts(r, blocks[0].0) {
            blocks[0].1 + rest
        } else {
            rest
        }
    }
}

/// Ordering invariant: however `Data` blocks are interleaved or
/// duplicated, the blocks a receiving session accepts are exactly a
/// contiguous run of indices starting one past the last accepted block,
/// in order; the received byte count grows by exactly the accepted
/// payload bytes (up to the counter's capacity); and the session keeps
/// receiving, with the announced length untouched, throughout.
pub proof fn lemma_ordering_invariant(r: Receiver, blocks: Seq<(u64, u64)>)
    requires
        r.phase is Receiving,
    ensures
        spec_run_data(r, blocks).phase is Receiving,
        spec_run_data(r, blocks).announced_length == r.announced_length,
        spec_run_data(r, blocks).last_index == r.last_index + spec_accepted_indices(
            r,
            blocks,
        ).len(),
        forall|j: int|
            0 <= j < spec_accepted_indices(r, blocks).len() ==> spec_accepted_indices(r, blocks)[j]
                == r.last_index + j + 1,
        spec_accepted_total(r, blocks) >= 0,
        r.received_length + spec_accepted_total(r, blocks) <= u64::MAX ==> spec_run_data(
            r,
            blocks,
        ).received_length == r.received_length + spec_accepted_total(r, blocks),
    decreases blocks.len(),
{
    if blocks.len() == 0 {
    } else {
        let r1 = spec_step_data(r, blocks[0].0, blocks[0].1);
        let rest = blocks.drop_first();
        lemma_ordering_invariant(r1, rest);
        let acc = spec_accepted_indices(r, blocks);
        let acc1 = spec_accepted_indices(r1, rest);
        if spec_accepts(r, blocks[0].0) {
            assert(acc == seq![blocks[0].0] + acc1);
            assert(r1.last_index == r.last_index + 1);
            assert forall|j: int| 0 <= j < acc.len() implies acc[j] == r.last_index + j + 1 by {
                if j == 0 {
                    assert(acc[0] == blocks[0].0);
                } else {
                    assert(acc[j] == acc1[j - 1]);
                }
            }
        } else {
            assert(acc == acc1);
            assert(r1.last_index == r.last_index);
        }
    }
}

/// A non-contiguous block never mutates the accepted index or the
/// received byte count; it only ages the staleness clock, which starts
/// over once it passes the threshold.
pub proof fn lemma_reject_no_mutation(r: Receiver, index: u64, len: u64)
    requires
        r.phase is Receiving,
        !spec_accepts(r, index),
    ensures
        spec_step_data(r, index, len).last_index == r.last_index,
        spec_step_data(r, index, len).received_length == r.received_length,
        spec_step_data(r, index, len).phase == r.phase,
        spec_step_data(r, index, len).stale_ms == ({
            let aged = sat_add_u64(r.stale_ms, r.poll_ms);
            if aged > STALE_THRESHOLD_MS {
                0
            } else {
                aged
            }
        }),
{
}

/// Completion gate: `End` completes a receiving session exactly when
/// every announced byte has arrived. An `End` that arrives early
/// changes nothing at all, so a later `End`, once the byte counts
/// agree, still completes the session.
pub proof fn lemma_completion_gate(r: Receiver)
    requires
        r.phase is Receiving,
    ensures
        spec_step_end(r).phase is Completed <==> r.received_length == r.announced_length,
        r.received_length != r.announced_length ==> spec_step_end(r) == r,
{
}

/// A later correct `End` still completes: an `End` ignored for missing
/// bytes leaves the session exactly as it was, and once subsequent
/// blocks bring the received count up to the announced one, the next
/// `End` moves it to `Completed`.
pub proof fn lemma_later_end_completes(r: Receiver, blocks: Seq<(u64, u64)>)
    requires
        r.phase is Receiving,
        r.received_length != r.announced_length,
    ensures
        spec_step_end(r) == r,
        ({
            let caught_up = spec_run_data(spec_step_end(r), blocks);
            caught_up.phase is Receiving && (caught_up.received_length
                == caught_up.announced_length ==> spec_step_end(caught_up).phase is Completed)
        }),
{
    lemma_ordering_invariant(spec_step_end(r), blocks);
    lemma_completion_gate(spec_run_data(spec_step_end(r), blocks));
}

} // verus!
