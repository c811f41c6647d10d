//! Byte-exact layout of a raw transfer buffer.
//!
//! A raw buffer is one block of `TOTAL_SIZE` bytes whose base address is a
//! multiple of `BUFFER_ALIGN`. It is partitioned into three fixed regions:
//! the source text at the start, the arena data region after it (16-byte
//! aligned), and a 16-byte trailer at the end whose first four bytes carry
//! the tree root's offset from the buffer base.

use vstd::prelude::*;

verus! {

/// Total size of a raw transfer buffer: 2^31 bytes.
pub const TOTAL_SIZE: u64 = 0x8000_0000;

/// Required alignment of a raw buffer's base address: 2^32 bytes.
/// Because the whole buffer is smaller than this alignment, every address
/// inside it shares its high 32 bits with the base address.
pub const BUFFER_ALIGN: u64 = 0x1_0000_0000;

/// Fixed trailer at the buffer's end: 4 bytes of root offset, 12 reserved.
pub const TRAILER_SIZE: u64 = 16;

/// Smallest data region the arena accepts; mirrors
/// `oxc_allocator::Allocator::RAW_MIN_SIZE` (its chunk footer size).
pub const ARENA_MIN_SIZE: u64 = 48;

/// `n` rounded up to the next multiple of 16.
pub open spec fn round_up_16(n: int) -> int {
    if n % 16 == 0 {
        n
    } else {
        n + (16 - n % 16)
    }
}

pub proof fn lemma_round_up_16(n: int)
    requires
        n >= 0,
    ensures
        round_up_16(n) % 16 == 0,
        n <= round_up_16(n) < n + 16,
{
}

/// The arena data region of a raw buffer holding `source_len` bytes of
/// source: offset and size within the buffer.
pub struct RawLayout {
    pub data_offset: u64,
    pub data_size: u64,
}

/// Well-formed layout for a declared source length: the data region starts
/// at the source length rounded up to 16, fills everything up to the
/// trailer, and is large enough for the arena.
pub open spec fn layout_wf(l: RawLayout, source_len: u32) -> bool {
    &&& l.data_offset == round_up_16(source_len as int)
    &&& l.data_offset + l.data_size + TRAILER_SIZE == TOTAL_SIZE
    &&& l.data_size >= ARENA_MIN_SIZE
}

/// Start of the arena data region: the source length rounded up to 16.
pub fn data_offset(source_len: u32) -> (r: u64)
    ensures
        r == round_up_16(source_len as int),
{
    let n: u64 = source_len as u64;
    let rem: u64 = n % 16;
    if rem == 0 {
        n
    } else {
        n + (16 - rem)
    }
}

/// Partition a raw buffer for a declared source length.
///
/// Returns the arena region exactly when enough room is left between the
/// rounded-up source and the trailer; a source too long for the buffer is
/// rejected rather than silently truncated.
pub fn compute_layout(source_len: u32) -> (r: Option<RawLayout>)
    ensures
        r matches Some(l) ==> layout_wf(l, source_len),
        r is Some <==> round_up_16(source_len as int) + TRAILER_SIZE + ARENA_MIN_SIZE
            <= TOTAL_SIZE,
{
    let off: u64 = data_offset(source_len);
    proof {
        lemma_round_up_16(source_len as int);
    }
    if off <= TOTAL_SIZE - TRAILER_SIZE - ARENA_MIN_SIZE {
        Some(RawLayout { data_offset: off, data_size: TOTAL_SIZE - TRAILER_SIZE - off })
    } else {
        None
    }
}

/// Offset of the trailer within the buffer.
pub fn trailer_offset() -> (r: u64)
    ensures
        r == TOTAL_SIZE - TRAILER_SIZE,
{
    TOTAL_SIZE - TRAILER_SIZE
}

/// The root offset recorded in the trailer: the arena-relative offset of
/// the tree root, rebased to the buffer. It always lands strictly inside
/// `[data_offset, TOTAL_SIZE - TRAILER_SIZE)`.
pub fn root_offset(l: &RawLayout, arena_offset: u64, source_len: u32) -> (r: u32)
    requires
        layout_wf(*l, source_len),
        arena_offset < l.data_size,
    ensures
        r == l.data_offset + arena_offset,
        round_up_16(source_len as int) <= r < TOTAL_SIZE - TRAILER_SIZE,
{
    (l.data_offset + arena_offset) as u32
}

/// Truncating a 64-bit address inside the buffer to 32 bits is lossless:
/// the base is a multiple of 2^32 and the buffer is smaller than 2^32, so
/// the low 32 bits of any interior address are exactly its offset from the
/// base.
pub proof fn lemma_lossless_truncation(base: u64, off: u64)
    requires
        base % BUFFER_ALIGN == 0,
        off < TOTAL_SIZE,
        base + off <= u64::MAX,
    ensures
        (base + off) % (BUFFER_ALIGN as int) == off,
{
    let b = base as int;
    let o = off as int;
    let a = BUFFER_ALIGN as int;
    assert((b + o) % a == o) by (nonlinear_arith)
        requires
            b % a == 0,
            0 <= o < a,
            b >= 0,
    ;
}

/// The raw protocol's result is always decodable and in range: for a
/// buffer based at a `BUFFER_ALIGN` boundary, a well-formed layout for a
/// declared source length, and a tree root the arena placed at
/// `arena_offset`, the 32-bit offset written to the trailer rebases to an
/// address strictly within the arena region — at or past the rounded-up
/// source, strictly before the trailer.
pub proof fn lemma_raw_root_in_bounds(base: u64, l: RawLayout, source_len: u32, arena_offset: u64)
    requires
        base % BUFFER_ALIGN == 0,
        base + TOTAL_SIZE <= u64::MAX,
        layout_wf(l, source_len),
        arena_offset < l.data_size,
    ensures
        ({
            let root = l.data_offset + arena_offset;
            &&& root <= u32::MAX
            &&& (base + root) % (BUFFER_ALIGN as int) == root
            &&& base + round_up_16(source_len as int) <= base + root < base + TOTAL_SIZE
                - TRAILER_SIZE
        }),
{
    let root = (l.data_offset + arena_offset) as u64;
    lemma_lossless_truncation(base, root);
}

/// Recover an interior address's offset from the base by truncation alone.
pub fn truncate_address(addr: u64, base: u64) -> (r: u32)
    requires
        base % BUFFER_ALIGN == 0,
        base <= addr,
        addr - base < TOTAL_SIZE,
    ensures
        r == addr - base,
{
    proof {
        lemma_lossless_truncation(base, (addr - base) as u64);
    }
    let low: u64 = addr % BUFFER_ALIGN;
    low as u32
}

} // verus!
