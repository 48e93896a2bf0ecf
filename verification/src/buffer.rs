//! Buffer provisioning and the deterministic fill pattern.
//!
//! The writer transfers blocks filled with a fixed repeating two-byte pattern
//! (a marker byte alternating with a line terminator), so the transferred data
//! is deterministic and a reader can recognize it.

use vstd::pervasive::VecAdditionalExecFns;
use vstd::prelude::*;

verus! {

/// The marker byte of the fill pattern (ASCII `X`).
pub const MARKER_BYTE: u8 = 88;

/// The terminator byte of the fill pattern (ASCII newline).
pub const TERMINATOR_BYTE: u8 = 10;

/// The byte the fill pattern puts at position `i`: the marker at even
/// positions, the terminator at odd ones.
pub open spec fn pattern_byte(i: int) -> u8 {
    if i % 2 == 0 {
        MARKER_BYTE
    } else {
        TERMINATOR_BYTE
    }
}

/// Every position of `s` holds the fill pattern's byte for that position.
pub open spec fn filled_with_pattern(s: Seq<u8>) -> bool {
    forall|i: int| 0 <= i < s.len() ==> s[i] == pattern_byte(i)
}

/// Overwrites every byte of `buf` with the deterministic fill pattern,
/// keeping its length.
pub fn fill(buf: &mut Vec<u8>)
    ensures
        final(buf)@.len() == old(buf)@.len(),
        filled_with_pattern(final(buf)@),
{
    let n = buf.len();
    let mut i: usize = 0;
    while i < n
        invariant
            n == buf@.len(),
            i <= n,
            forall|j: int| 0 <= j < i ==> buf@[j] == pattern_byte(j),
        decreases n - i,
    {
        if i % 2 == 0 {
            buf.set(i, MARKER_BYTE);
        } else {
            buf.set(i, TERMINATOR_BYTE);
        }
        i = i + 1;
    }
}

/// A plain zero-initialized allocation of exactly `size` bytes.
pub fn zeroed_buffer(size: usize) -> (buf: Vec<u8>)
    ensures
        buf@.len() == size,
        forall|i: int| 0 <= i < size ==> buf@[i] == 0u8,
{
    let mut buf: Vec<u8> = Vec::new();
    while buf.len() < size
        invariant
            buf@.len() <= size,
            forall|i: int| 0 <= i < buf@.len() ==> buf@[i] == 0u8,
        decreases size - buf@.len(),
    {
        buf.push(0u8);
    }
    buf
}

/// The writer's double buffer: two contiguous block-size halves, pattern
/// filled, indexed 0/1 by the transfer loop.
pub fn create_buffer(block_size: usize) -> (buf: Vec<u8>)
    requires
        block_size <= usize::MAX / 2,
    ensures
        buf@.len() == 2 * block_size,
        filled_with_pattern(buf@),
{
    let mut buf = zeroed_buffer(2 * block_size);
    fill(&mut buf);
    buf
}

/// Copies `src` over `dst`, byte for byte. This is the reader's diagnostic
/// copy step: the work measured when the copy diagnostic is enabled.
pub fn copy_block(dst: &mut Vec<u8>, src: &Vec<u8>)
    requires
        old(dst)@.len() == src@.len(),
    ensures
        final(dst)@ == src@,
{
    let n = src.len();
    let mut i: usize = 0;
    while i < n
        invariant
            n == src@.len(),
            dst@.len() == src@.len(),
            i <= n,
            forall|j: int| 0 <= j < i ==> dst@[j] == src@[j],
        decreases n - i,
    {
        dst.set(i, src[i]);
        i = i + 1;
    }
    proof {
        assert(dst@ =~= src@);
    }
}

/// Reports whether `buf` holds exactly the deterministic fill pattern.
pub fn block_matches_pattern(buf: &Vec<u8>) -> (r: bool)
    ensures
        r == filled_with_pattern(buf@),
{
    let n = buf.len();
    let mut i: usize = 0;
    while i < n
        invariant
            n == buf@.len(),
            i <= n,
            forall|j: int| 0 <= j < i ==> buf@[j] == pattern_byte(j),
        decreases n - i,
    {
        let expected = if i % 2 == 0 {
            MARKER_BYTE
        } else {
            TERMINATOR_BYTE
        };
        if buf[i] != expected {
            proof {
                assert(buf@[i as int] != pattern_byte(i as int));
            }
            return false;
        }
        i = i + 1;
    }
    true
}

/// Every pattern-filled block of even, positive length begins with the marker
/// byte and ends with the line terminator, so the first and last byte of every
/// transferred block are fixed by the fill pattern.
pub proof fn lemma_block_endpoints(s: Seq<u8>)
    requires
        filled_with_pattern(s),
        s.len() >= 2,
        s.len() % 2 == 0,
    ensures
        s[0] == MARKER_BYTE,
        s[s.len() - 1] == TERMINATOR_BYTE,
{
    assert(s[0] == pattern_byte(0));
    assert((s.len() - 1) % 2 == 1);
    assert(s[s.len() - 1] == pattern_byte(s.len() - 1));
}

} // verus!
