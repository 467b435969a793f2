//! The drain state machine: consume a connection one byte at a time until it
//! signals end-of-stream, tracking how many bytes arrived.
//!
//! The machine decides everything about a drain run except the read itself:
//! how large the next read window is, how the cursor advances on a delivery,
//! and when the run is over. The caller performs each read (on a real socket
//! or on an in-memory source) and reports its outcome back.

use vstd::prelude::*;

use crate::source::zero_vec;
use crate::source::ByteSource;

verus! {

/// The three states of one drain run.
#[derive(Clone, Copy, Debug, PartialEq, Eq, Structural)]
pub enum DrainState {
    /// Still expecting data.
    Reading,
    /// The stream signalled a clean end (a zero-byte read). Terminal success.
    Done,
    /// A read failed. Terminal; the run is fatal to its connection.
    Failed,
}

/// One drain run over a connection of target size `total`.
///
/// The cursor counts the bytes delivered so far; it starts at 0, never
/// decreases, and never passes `total`.
pub struct Drainer {
    total: usize,
    cursor: usize,
    state: DrainState,
}

impl Drainer {
    /// The target total size of this run.
    pub closed spec fn spec_total(self) -> usize {
        self.total
    }

    /// Bytes delivered so far.
    pub closed spec fn spec_cursor(self) -> usize {
        self.cursor
    }

    /// The current state of the run.
    pub closed spec fn spec_state(self) -> DrainState {
        self.state
    }

    /// The cursor stays within the buffer: `0 <= cursor <= total`.
    pub open spec fn inv(self) -> bool {
        self.spec_cursor() <= self.spec_total()
    }

    /// The length of the next read window. It is deliberately one byte while
    /// any byte is still missing — the per-call overhead of tiny reads is the
    /// quantity under measurement — and zero once the buffer is full.
    pub open spec fn spec_window_len(self) -> usize {
        if self.spec_cursor() < self.spec_total() {
            1
        } else {
            0
        }
    }

    /// Start a run: cursor at 0, state `Reading`.
    pub fn new(total: usize) -> (d: Drainer)
        ensures
            d.spec_total() == total,
            d.spec_cursor() == 0,
            d.spec_state() == DrainState::Reading,
            d.inv(),
    {
        Drainer { total, cursor: 0, state: DrainState::Reading }
    }

    pub fn total(&self) -> (n: usize)
        ensures
            n == self.spec_total(),
    {
        self.total
    }

    pub fn cursor(&self) -> (n: usize)
        ensures
            n == self.spec_cursor(),
    {
        self.cursor
    }

    pub fn state(&self) -> (s: DrainState)
        ensures
            s == self.spec_state(),
    {
        self.state
    }

    pub fn is_reading(&self) -> (b: bool)
        ensures
            b == (self.spec_state() == DrainState::Reading),
    {
        match self.state {
            DrainState::Reading => true,
            _ => false,
        }
    }

    /// How many bytes the next read may deliver at most.
    pub fn window_len(&self) -> (n: usize)
        requires
            self.inv(),
        ensures
            n == self.spec_window_len(),
    {
        if self.cursor < self.total {
            1
        } else {
            0
        }
    }

    /// A read delivered `count` bytes (`count == 0` means end-of-stream).
    ///
    /// A positive count advances the cursor and keeps the run in `Reading`;
    /// a zero count ends the run in `Done` with the cursor unchanged.
    pub fn on_read(&mut self, count: usize)
        requires
            old(self).inv(),
            old(self).spec_state() == DrainState::Reading,
            count <= old(self).spec_window_len(),
        ensures
            final(self).inv(),
            final(self).spec_total() == old(self).spec_total(),
            count > 0 ==> final(self).spec_state() == DrainState::Reading
                && final(self).spec_cursor() == old(self).spec_cursor() + count,
            count == 0 ==> final(self).spec_state() == DrainState::Done
                && final(self).spec_cursor() == old(self).spec_cursor(),
    {
        if count > 0 {
            self.cursor = self.cursor + count;
        } else {
            self.state = DrainState::Done;
        }
    }

    /// One while the run is still reading, zero once it has ended; a
    /// termination measure for the drain loop.
    pub open spec fn step_measure(self) -> int {
        if self.spec_state() == DrainState::Reading {
            1
        } else {
            0
        }
    }

    /// A read failed: the run ends in `Failed` with the cursor unchanged.
    pub fn on_error(&mut self)
        requires
            old(self).spec_state() == DrainState::Reading,
        ensures
            final(self).spec_state() == DrainState::Failed,
            final(self).spec_cursor() == old(self).spec_cursor(),
            final(self).spec_total() == old(self).spec_total(),
            old(self).inv() ==> final(self).inv(),
    {
        self.state = DrainState::Failed;
    }
}

/// How many bytes a drain run delivers when `avail` bytes are pending and the
/// target size is `total`: everything pending, capped at the target.
pub open spec fn drained_count(avail: nat, total: nat) -> nat {
    if avail < total {
        avail
    } else {
        total
    }
}

/// What holds of a drain run over a stream of `avail` pending bytes once it
/// has terminated: the run ends in `Done`, and its cursor stands at exactly
/// `drained_count(avail, total)` bytes.
pub open spec fn drain_outcome(avail: nat, total: nat, state: DrainState, count: nat) -> bool {
    state == DrainState::Done && count == drained_count(avail, total)
}

/// Run one full drain over `source`, one byte per read, into a fresh
/// zero-filled buffer of length `total`, exactly as the benchmark client does.
///
/// Returns the finished run and the buffer. The run always ends in `Done`;
/// the cursor stands at the pending byte count capped at `total`; the buffer
/// holds the delivered bytes in order, still zero past the cursor.
pub fn drain<S: ByteSource>(total: usize, source: &mut S) -> (r: (Drainer, Vec<u8>))
    requires
        old(source).inv(),
    ensures
        final(source).inv(),
        r.0.spec_total() == total,
        drain_outcome(
            old(source).pending().len(),
            total as nat,
            r.0.spec_state(),
            r.0.spec_cursor() as nat,
        ),
        r.1@.len() == total,
        forall|i: int| 0 <= i < r.0.spec_cursor() ==> r.1@[i] == old(source).pending()[i],
        forall|i: int| r.0.spec_cursor() <= i < total ==> r.1@[i] == 0u8,
        final(source).pending() == old(source).pending().skip(r.0.spec_cursor() as int),
{
    let mut d = Drainer::new(total);
    let mut buffer = zero_vec(total);
    while d.is_reading()
        invariant
            source.inv(),
            d.inv(),
            d.spec_total() == total,
            d.spec_state() != DrainState::Failed,
            buffer@.len() == total,
            d.spec_cursor() <= old(source).pending().len(),
            source.pending() == old(source).pending().skip(d.spec_cursor() as int),
            forall|i: int| 0 <= i < d.spec_cursor() ==> buffer@[i] == old(source).pending()[i],
            forall|i: int| d.spec_cursor() <= i < total ==> buffer@[i] == 0u8,
            d.spec_state() == DrainState::Done ==> d.spec_cursor() == drained_count(
                old(source).pending().len(),
                total as nat,
            ),
        decreases old(source).pending().len() - d.spec_cursor() + d.step_measure(),
    {
        let ghost prev_cursor = d.spec_cursor();
        let ghost prev_pending = source.pending();
        let w = d.window_len();
        let cursor = d.cursor();
        let n = source.read_window(&mut buffer, cursor, w);
        d.on_read(n);
        proof {
            assert(source.pending() =~= old(source).pending().skip(d.spec_cursor() as int));
            assert forall|i: int|
                0 <= i < d.spec_cursor() implies buffer@[i] == old(source).pending()[i] by {
                if prev_cursor <= i {
                    assert(buffer@[i] == prev_pending[i - prev_cursor]);
                }
            }
            if n == 0 && w > 0 {
                assert(prev_pending.len() == 0);
            }
        }
    }
    (d, buffer)
}

/// Drain completeness: a drain run that terminated over a stream holding
/// exactly the target number of bytes ended in `Done` with its cursor at that
/// target — never at fewer bytes.
pub proof fn lemma_drain_completeness(avail: nat, total: nat, state: DrainState, count: nat)
    requires
        drain_outcome(avail, total, state, count),
        avail == total,
    ensures
        state == DrainState::Done,
        count == total,
{
}

/// Strategy equivalence: two terminated drain runs over the same pending
/// stream and the same target — one per read strategy — observe the same
/// byte count and the same terminal state; only their timing may differ.
pub proof fn lemma_strategy_equivalence(
    avail: nat,
    total: nat,
    raw_state: DrainState,
    raw_count: nat,
    buffered_state: DrainState,
    buffered_count: nat,
)
    requires
        drain_outcome(avail, total, raw_state, raw_count),
        drain_outcome(avail, total, buffered_state, buffered_count),
    ensures
        raw_count == buffered_count,
        raw_state == buffered_state,
{
}

/// Zero-length edge case: with a target of zero the first window is already
/// empty, so no byte is ever requested, and a terminated run is `Done` with a
/// cursor of zero.
pub proof fn lemma_zero_length_drain(d: Drainer, avail: nat, state: DrainState, count: nat)
    requires
        d.inv(),
        d.spec_total() == 0,
        drain_outcome(avail, 0, state, count),
    ensures
        d.spec_window_len() == 0,
        state == DrainState::Done,
        count == 0,
{
}

} // verus!
