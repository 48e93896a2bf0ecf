//! The dual-mode transfer engine, modelled as explicit state machines.
//!
//! Each loop of the benchmark alternates channel work with a decision: what
//! region to hand to the channel next, how to count the bytes it reported,
//! and when to stop. Those decisions are what this module verifies. The
//! surrounding loop performs the channel call and feeds the outcome back in
//! as a [`SpliceSignal`] or [`ReadOutcome`].

use crate::TransferConfig;
use vstd::prelude::*;

verus! {

/// What one nonblocking zero-copy attempt reported back.
#[derive(Clone, Copy, Debug, PartialEq, Eq, Structural)]
pub enum SpliceSignal {
    /// The channel accepted this many bytes of the submitted region.
    Accepted(usize),
    /// The transient would-block condition: nothing was moved, retry at once.
    WouldBlock,
    /// Any other outcome — an error, or (reader side) zero bytes: the loop's
    /// terminal condition.
    Ended,
}

/// What the zero-copy writer wants done next.
#[derive(Clone, Copy, Debug, PartialEq, Eq, Structural)]
pub enum WriterAction {
    /// Hand bytes `offset .. offset + len` of double-buffer half `half`
    /// (0 or 1) to the channel in nonblocking mode.
    Submit { half: usize, offset: usize, len: usize },
    /// The volume target is reached: the run is complete.
    Finished,
}

/// The writer's zero-copy transfer loop: for each block it submits the next
/// half of the double buffer, retries until the whole block is accepted, and
/// stops once the accumulated count reaches the volume target.
pub struct ZeroCopyWriter {
    /// Bytes per block, fixed for the run.
    pub block_size: usize,
    /// The volume target in bytes.
    pub target: usize,
    /// Bytes of fully accepted blocks so far.
    pub written: usize,
    /// Bytes of the current block accepted across its retries so far.
    pub accepted: usize,
}

/// An empty run divides evenly into blocks.
proof fn lemma_zero_block_remainder(b: int)
    requires
        b >= 1,
    ensures
        0int % b == 0,
{
    assert(0int % b == 0) by (nonlinear_arith)
        requires
            b >= 1,
    ;
}

/// Adding one whole block keeps the byte count an exact multiple of the
/// block size.
proof fn lemma_whole_block_remainder(w: int, b: int)
    requires
        b >= 1,
        0 <= w,
        w % b == 0,
    ensures
        (w + b) % b == 0,
{
    assert((w + b) % b == 0) by (nonlinear_arith)
        requires
            b >= 1,
            0 <= w,
            w % b == 0,
    ;
}

/// The half of the double buffer that block number `k` is handed off from.
pub open spec fn half_for_block(k: int) -> int {
    k % 2
}

/// The state the writer moves to when a submission reports `sig`: accepted
/// bytes advance the current block (rolling into the total when the block
/// completes), a would-block changes nothing, and a terminal signal leaves
/// the state for the caller to abort on.
pub open spec fn writer_next(pre: ZeroCopyWriter, sig: SpliceSignal) -> ZeroCopyWriter {
    match sig {
        SpliceSignal::Accepted(n) => {
            if pre.accepted + n == pre.block_size {
                ZeroCopyWriter {
                    block_size: pre.block_size,
                    target: pre.target,
                    written: (pre.written + pre.block_size) as usize,
                    accepted: 0,
                }
            } else {
                ZeroCopyWriter {
                    block_size: pre.block_size,
                    target: pre.target,
                    written: pre.written,
                    accepted: (pre.accepted + n) as usize,
                }
            }
        },
        SpliceSignal::WouldBlock => pre,
        SpliceSignal::Ended => pre,
    }
}

/// Whether `sig` completes the writer's current block: the bytes accepted
/// across the block's attempts reach exactly the block size.
pub open spec fn completes_block(pre: ZeroCopyWriter, sig: SpliceSignal) -> bool {
    match sig {
        SpliceSignal::Accepted(n) => pre.accepted + n == pre.block_size,
        _ => false,
    }
}

/// The channel never accepts more than it was handed: an accepted count
/// stays within the remainder of the current block.
pub open spec fn signal_in_bounds(pre: ZeroCopyWriter, sig: SpliceSignal) -> bool {
    match sig {
        SpliceSignal::Accepted(n) => pre.accepted + n <= pre.block_size,
        _ => true,
    }
}

impl ZeroCopyWriter {
    /// The writer's invariant: blocks are counted whole, the current block is
    /// mid-flight, and the total never overshoots the target by a block.
    pub open spec fn wf(self) -> bool {
        &&& self.block_size >= 1
        &&& self.target <= usize::MAX - self.block_size
        &&& self.written % self.block_size == 0
        &&& self.accepted < self.block_size
        &&& self.written < self.target + self.block_size
        &&& (self.finished() ==> self.accepted == 0)
    }

    /// The run is complete: the counted bytes have reached the target.
    pub open spec fn finished(self) -> bool {
        self.written >= self.target
    }

    /// How many whole blocks have been handed off so far.
    pub open spec fn blocks_done(self) -> int {
        self.written as int / self.block_size as int
    }

    /// The half of the double buffer the current block is submitted from.
    pub open spec fn current_half(self) -> int {
        half_for_block(self.blocks_done())
    }

    /// A fresh writer for one run of the given configuration.
    pub fn new(cfg: &TransferConfig) -> (w: ZeroCopyWriter)
        requires
            cfg.wf(),
        ensures
            w.wf(),
            w.block_size == cfg.block_size,
            w.target == cfg.volume_bytes,
            w.written == 0,
            w.accepted == 0,
    {
        proof {
            lemma_zero_block_remainder(cfg.block_size as int);
        }
        ZeroCopyWriter {
            block_size: cfg.block_size,
            target: cfg.volume_bytes,
            written: 0,
            accepted: 0,
        }
    }

    /// The double-buffer half the current block uses, alternating 0/1 with
    /// each completed block.
    pub fn half(&self) -> (h: usize)
        requires
            self.wf(),
        ensures
            h as int == self.current_half(),
    {
        (self.written / self.block_size) % 2
    }

    /// What the loop should do now: stop at the target, otherwise submit the
    /// not-yet-accepted remainder of the current block from its half.
    pub fn current_action(&self) -> (a: WriterAction)
        requires
            self.wf(),
        ensures
            self.finished() ==> a == WriterAction::Finished,
            !self.finished() ==> a == (WriterAction::Submit {
                half: if self.current_half() == 0 { 0usize } else { 1usize },
                offset: self.accepted,
                len: (self.block_size - self.accepted) as usize,
            }),
    {
        if self.written >= self.target {
            WriterAction::Finished
        } else {
            WriterAction::Submit {
                half: self.half(),
                offset: self.accepted,
                len: self.block_size - self.accepted,
            }
        }
    }

    /// Records what one submission reported. Returns whether the loop may go
    /// on: false exactly on a terminal signal, which the writer treats as
    /// fatal.
    pub fn step(&mut self, sig: SpliceSignal) -> (ok: bool)
        requires
            old(self).wf(),
            !old(self).finished(),
            signal_in_bounds(*old(self), sig),
        ensures
            *final(self) == writer_next(*old(self), sig),
            final(self).wf(),
            ok <==> !(sig is Ended),
            sig is WouldBlock ==> *final(self) == *old(self),
    {
        match sig {
            SpliceSignal::Accepted(n) => {
                if self.accepted + n == self.block_size {
                    self.written = self.written + self.block_size;
                    self.accepted = 0;
                    proof {
                        lemma_whole_block_remainder(
                            old(self).written as int,
                            old(self).block_size as int,
                        );
                    }
                } else {
                    self.accepted = self.accepted + n;
                }
                true
            },
            SpliceSignal::WouldBlock => true,
            SpliceSignal::Ended => false,
        }
    }

    /// Whether the volume target has been reached.
    pub fn is_finished(&self) -> (b: bool)
        ensures
            b == self.finished(),
    {
        self.written >= self.target
    }
}

/// The double-buffer alternation is strictly periodic with period 2:
/// consecutive blocks are handed off from different halves, and every second
/// block returns to the same half.
pub proof fn lemma_alternation_periodic(k: int)
    requires
        0 <= k,
    ensures
        half_for_block(k + 1) != half_for_block(k),
        half_for_block(k + 2) == half_for_block(k),
{
}

/// A well-formed writer always submits from the half assigned to its current
/// block number.
pub proof fn lemma_current_half_follows_blocks(w: ZeroCopyWriter)
    requires
        w.wf(),
    ensures
        w.current_half() == half_for_block(w.blocks_done()),
        w.current_half() == 0 || w.current_half() == 1,
{
}

/// No half of the double buffer is reused for a new handoff before its
/// previous handoff is fully accepted: a step moves the writer to the other
/// half exactly when the bytes accepted for the current block reach the block
/// size, and any partial or empty progress keeps both the half and the byte
/// count unchanged.
pub proof fn lemma_half_reuse_guard(pre: ZeroCopyWriter, sig: SpliceSignal)
    requires
        pre.wf(),
        !pre.finished(),
        signal_in_bounds(pre, sig),
    ensures
        writer_next(pre, sig).current_half() != pre.current_half() <==> completes_block(pre, sig),
        !completes_block(pre, sig) ==> writer_next(pre, sig).written == pre.written,
        completes_block(pre, sig) ==> writer_next(pre, sig).blocks_done() == pre.blocks_done() + 1,
{
    let b = pre.block_size as int;
    let w = pre.written as int;
    if completes_block(pre, sig) {
        assert((w + b) / b == w / b + 1) by (nonlinear_arith)
            requires
                b >= 1,
                w >= 0,
                w % b == 0,
        ;
    }
}

/// On completion the writer's byte count is an exact nonnegative multiple of
/// the block size, at least the requested volume, and overshoots it by
/// strictly less than one block.
pub proof fn lemma_writer_exact_count(w: ZeroCopyWriter)
    requires
        w.wf(),
        w.finished(),
    ensures
        w.written % w.block_size == 0,
        w.target <= w.written,
        w.written < w.target + w.block_size,
{
}

/// The writer's buffered-copy loop: one blocking full-block write per
/// iteration until the counted bytes reach the volume target.
pub struct BufferedWriter {
    /// Bytes per block, fixed for the run.
    pub block_size: usize,
    /// The volume target in bytes.
    pub target: usize,
    /// Bytes written so far, always in whole blocks.
    pub written: usize,
}

impl BufferedWriter {
    /// Blocks are counted whole and the total never overshoots the target by
    /// a block.
    pub open spec fn wf(self) -> bool {
        &&& self.block_size >= 1
        &&& self.target <= usize::MAX - self.block_size
        &&& self.written % self.block_size == 0
        &&& self.written < self.target + self.block_size
    }

    /// The run is complete: the counted bytes have reached the target.
    pub open spec fn finished(self) -> bool {
        self.written >= self.target
    }

    /// A fresh writer for one run of the given configuration.
    pub fn new(cfg: &TransferConfig) -> (w: BufferedWriter)
        requires
            cfg.wf(),
        ensures
            w.wf(),
            w.block_size == cfg.block_size,
            w.target == cfg.volume_bytes,
            w.written == 0,
    {
        proof {
            lemma_zero_block_remainder(cfg.block_size as int);
        }
        BufferedWriter { block_size: cfg.block_size, target: cfg.volume_bytes, written: 0 }
    }

    /// Whether the volume target has been reached.
    pub fn is_finished(&self) -> (b: bool)
        ensures
            b == self.finished(),
    {
        self.written >= self.target
    }

    /// Counts one full block written through the blocking channel call. A
    /// short or failed write never reaches this point: the caller treats it
    /// as fatal instead.
    pub fn record_block(&mut self)
        requires
            old(self).wf(),
            !old(self).finished(),
        ensures
            final(self).wf(),
            final(self).block_size == old(self).block_size,
            final(self).target == old(self).target,
            final(self).written == old(self).written + old(self).block_size,
    {
        self.written = self.written + self.block_size;
        proof {
            lemma_whole_block_remainder(old(self).written as int, old(self).block_size as int);
        }
    }
}

/// On completion the buffered writer's byte count is an exact nonnegative
/// multiple of the block size, at least the requested volume, and overshoots
/// it by strictly less than one block.
pub proof fn lemma_buffered_writer_exact_count(w: BufferedWriter)
    requires
        w.wf(),
        w.finished(),
    ensures
        w.written % w.block_size == 0,
        w.target <= w.written,
        w.written < w.target + w.block_size,
{
}

/// The reader's zero-copy transfer loop: it pulls bytes from the channel
/// into a fixed block-size region, counts them, and stops when the channel
/// signals its end. It does not know the writer's target.
pub struct ZeroCopyReader {
    /// Bytes per block, fixed for the run.
    pub block_size: usize,
    /// Bytes pulled from the channel so far, counting finished blocks and,
    /// once the channel has ended, the final partial block.
    pub received: usize,
    /// Bytes of the current block pulled across its retries so far.
    pub in_block: usize,
    /// The channel has ended: the run is over.
    pub done: bool,
    /// Diagnostic switch: when set, the loop skips its internal copy step.
    pub disable_memcpy: bool,
}

/// The state the reader moves to when a pull attempt reports `sig`: accepted
/// bytes advance the current block (rolling into the total when the block
/// completes), a would-block changes nothing, and the terminal signal counts
/// the partial block and ends the run.
pub open spec fn reader_next(pre: ZeroCopyReader, sig: SpliceSignal) -> ZeroCopyReader {
    match sig {
        SpliceSignal::Accepted(n) => {
            if pre.in_block + n == pre.block_size {
                ZeroCopyReader {
                    received: (pre.received + pre.block_size) as usize,
                    in_block: 0,
                    ..pre
                }
            } else {
                ZeroCopyReader { in_block: (pre.in_block + n) as usize, ..pre }
            }
        },
        SpliceSignal::WouldBlock => pre,
        SpliceSignal::Ended => ZeroCopyReader {
            received: (pre.received + pre.in_block) as usize,
            in_block: 0,
            done: true,
            ..pre
        },
    }
}

/// Whether `sig` closes out the reader's current outer iteration — a
/// completed block or the channel's end — after which the diagnostic copy
/// step runs unless it is disabled.
pub open spec fn reader_block_boundary(pre: ZeroCopyReader, sig: SpliceSignal) -> bool {
    match sig {
        SpliceSignal::Accepted(n) => pre.in_block + n == pre.block_size,
        SpliceSignal::WouldBlock => false,
        SpliceSignal::Ended => true,
    }
}

/// The channel hands over at least one byte per accepted pull and never more
/// than the remainder of the block-size region it was offered.
pub open spec fn reader_signal_in_bounds(pre: ZeroCopyReader, sig: SpliceSignal) -> bool {
    match sig {
        SpliceSignal::Accepted(n) => 1 <= n && pre.in_block + n <= pre.block_size,
        _ => true,
    }
}

impl ZeroCopyReader {
    /// The reader's invariant: the current block is mid-flight.
    pub open spec fn wf(self) -> bool {
        &&& self.block_size >= 1
        &&& self.in_block < self.block_size
    }

    /// A fresh reader for one run of the given configuration.
    pub fn new(cfg: &TransferConfig) -> (r: ZeroCopyReader)
        requires
            cfg.wf(),
        ensures
            r.wf(),
            r.block_size == cfg.block_size,
            r.received == 0,
            r.in_block == 0,
            !r.done,
            r.disable_memcpy == cfg.disable_memcpy,
    {
        ZeroCopyReader {
            block_size: cfg.block_size,
            received: 0,
            in_block: 0,
            done: false,
            disable_memcpy: cfg.disable_memcpy,
        }
    }

    /// Records what one pull attempt reported. Returns whether this step
    /// closed out an outer iteration, after which the caller runs the
    /// diagnostic copy unless it is disabled.
    pub fn step(&mut self, sig: SpliceSignal) -> (boundary: bool)
        requires
            old(self).wf(),
            !old(self).done,
            reader_signal_in_bounds(*old(self), sig),
            old(self).received <= usize::MAX - old(self).block_size,
        ensures
            *final(self) == reader_next(*old(self), sig),
            final(self).wf(),
            boundary == reader_block_boundary(*old(self), sig),
            sig is WouldBlock ==> *final(self) == *old(self),
            final(self).done <==> sig is Ended,
    {
        match sig {
            SpliceSignal::Accepted(n) => {
                if self.in_block + n == self.block_size {
                    self.received = self.received + self.block_size;
                    self.in_block = 0;
                    true
                } else {
                    self.in_block = self.in_block + n;
                    false
                }
            },
            SpliceSignal::WouldBlock => false,
            SpliceSignal::Ended => {
                self.received = self.received + self.in_block;
                self.in_block = 0;
                self.done = true;
                true
            },
        }
    }

    /// Whether the channel has ended.
    pub fn is_done(&self) -> (b: bool)
        ensures
            b == self.done,
    {
        self.done
    }
}

/// The reader's buffered-copy loop: one blocking full-block read per
/// iteration, ending cleanly when a full block can no longer be read.
pub struct BufferedReader {
    /// Bytes per block, fixed for the run.
    pub block_size: usize,
    /// Bytes read so far, always in whole blocks.
    pub received: usize,
    /// The stream has ended: the run is over.
    pub done: bool,
    /// Diagnostic switch: when set, the loop skips its internal copy step.
    pub disable_memcpy: bool,
}

/// What one blocking full-block read reported back.
#[derive(Clone, Copy, Debug, PartialEq, Eq, Structural)]
pub enum ReadOutcome {
    /// A full block was read.
    FullBlock,
    /// The block could not be filled: the stream's clean end.
    EndOfStream,
}

/// The state the buffered reader moves to on one read outcome: a full block
/// is counted, anything short ends the run without counting.
pub open spec fn buffered_reader_next(pre: BufferedReader, outcome: ReadOutcome) -> BufferedReader {
    match outcome {
        ReadOutcome::FullBlock => BufferedReader {
            received: (pre.received + pre.block_size) as usize,
            ..pre
        },
        ReadOutcome::EndOfStream => BufferedReader { done: true, ..pre },
    }
}

impl BufferedReader {
    /// Blocks are counted whole.
    pub open spec fn wf(self) -> bool {
        self.block_size >= 1
    }

    /// A fresh reader for one run of the given configuration.
    pub fn new(cfg: &TransferConfig) -> (r: BufferedReader)
        requires
            cfg.wf(),
        ensures
            r.wf(),
            r.block_size == cfg.block_size,
            r.received == 0,
            !r.done,
            r.disable_memcpy == cfg.disable_memcpy,
    {
        BufferedReader {
            block_size: cfg.block_size,
            received: 0,
            done: false,
            disable_memcpy: cfg.disable_memcpy,
        }
    }

    /// Records what one blocking read reported. Returns whether a full block
    /// arrived, after which the caller runs the diagnostic copy unless it is
    /// disabled.
    pub fn step(&mut self, outcome: ReadOutcome) -> (got_block: bool)
        requires
            old(self).wf(),
            !old(self).done,
            old(self).received <= usize::MAX - old(self).block_size,
        ensures
            *final(self) == buffered_reader_next(*old(self), outcome),
            final(self).wf(),
            got_block == (outcome is FullBlock),
            final(self).done <==> outcome is EndOfStream,
    {
        match outcome {
            ReadOutcome::FullBlock => {
                self.received = self.received + self.block_size;
                true
            },
            ReadOutcome::EndOfStream => {
                self.done = true;
                false
            },
        }
    }

    /// Whether the stream has ended.
    pub fn is_done(&self) -> (b: bool)
        ensures
            b == self.done,
    {
        self.done
    }
}

/// The copy diagnostic never changes the counted bytes: two zero-copy
/// readers that agree on everything except the diagnostic switch count the
/// same bytes, reach the same block boundaries, and end together on every
/// signal. Only the measured wall-clock rate can differ.
pub proof fn lemma_memcpy_flag_count_independent(
    a: ZeroCopyReader,
    b: ZeroCopyReader,
    sig: SpliceSignal,
)
    requires
        a.block_size == b.block_size,
        a.received == b.received,
        a.in_block == b.in_block,
        a.done == b.done,
    ensures
        reader_next(a, sig).received == reader_next(b, sig).received,
        reader_next(a, sig).in_block == reader_next(b, sig).in_block,
        reader_next(a, sig).done == reader_next(b, sig).done,
        reader_block_boundary(a, sig) == reader_block_boundary(b, sig),
{
}

/// The same holds of the buffered reader: the diagnostic switch never
/// changes its counted bytes or when it stops.
pub proof fn lemma_memcpy_flag_count_independent_buffered(
    a: BufferedReader,
    b: BufferedReader,
    outcome: ReadOutcome,
)
    requires
        a.block_size == b.block_size,
        a.received == b.received,
        a.done == b.done,
    ensures
        buffered_reader_next(a, outcome).received == buffered_reader_next(b, outcome).received,
        buffered_reader_next(a, outcome).done == buffered_reader_next(b, outcome).done,
{
}

} // verus!

