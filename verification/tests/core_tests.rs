//! Arena, layout and buffer-search behavior on concrete values.

use parser_boundary::arena::Arena;
use parser_boundary::layout::{
    compute_layout, data_offset, root_offset, trailer_offset, truncate_address, ARENA_MIN_SIZE,
    TOTAL_SIZE, TRAILER_SIZE,
};
use parser_boundary::search::{AlignmentSearch, AttemptDecision, ALLOC_ATTEMPTS};

#[test]
fn data_offset_rounds_up_to_sixteen() {
    assert_eq!(data_offset(0), 0);
    assert_eq!(data_offset(1), 16);
    assert_eq!(data_offset(15), 16);
    assert_eq!(data_offset(16), 16);
    assert_eq!(data_offset(17), 32);
    assert_eq!(data_offset(1000), 1008);
}

#[test]
fn layout_for_thousand_byte_source() {
    // source_len = 1000 puts the arena at 1008 and leaves everything up
    // to the 16-byte trailer: 2^31 - 1008 - 16 bytes.
    let l = compute_layout(1000).unwrap();
    assert_eq!(l.data_offset, 1008);
    assert_eq!(l.data_size, (1u64 << 31) - 1008 - 16);
}

#[test]
fn layout_of_empty_source_uses_whole_buffer() {
    let l = compute_layout(0).unwrap();
    assert_eq!(l.data_offset, 0);
    assert_eq!(l.data_size, TOTAL_SIZE - TRAILER_SIZE);
}

#[test]
fn layout_edge_of_capacity() {
    // The largest source for which the minimum arena still fits.
    let max_fit = (TOTAL_SIZE - TRAILER_SIZE - ARENA_MIN_SIZE) as u32;
    let l = compute_layout(max_fit).unwrap();
    assert_eq!(l.data_size, ARENA_MIN_SIZE);
    // One byte more and the arena region would shrink below its minimum.
    assert!(compute_layout(max_fit + 1).is_none());
    assert!(compute_layout(u32::MAX).is_none());
}

#[test]
fn root_offset_lands_between_data_and_trailer() {
    let l = compute_layout(1000).unwrap();
    let first = root_offset(&l, 0, 1000);
    assert_eq!(first, 1008);
    let last = root_offset(&l, l.data_size - 1, 1000);
    assert_eq!(u64::from(last), TOTAL_SIZE - TRAILER_SIZE - 1);
    assert_eq!(trailer_offset(), TOTAL_SIZE - TRAILER_SIZE);
}

#[test]
fn truncation_recovers_the_offset() {
    let base: u64 = 7 << 32;
    assert_eq!(truncate_address(base, base), 0);
    assert_eq!(truncate_address(base + 12345, base), 12345);
    assert_eq!(truncate_address(base + TOTAL_SIZE - 1, base), (TOTAL_SIZE - 1) as u32);
}

#[test]
fn arena_bump_allocates_in_order() {
    let mut a = Arena::new_owned(64);
    assert_eq!(a.try_allocate(10), Some(0)); // padded to 16
    assert_eq!(a.try_allocate(16), Some(16));
    assert_eq!(a.try_allocate(30), Some(32)); // padded to 32, fills the arena
    assert_eq!(a.remaining(), 0);
    assert_eq!(a.try_allocate(1), None);
}

#[test]
fn arena_budget_decides_success() {
    // Padded sizes 16 + 32 = 48 <= 48: both succeed, disjoint regions.
    let mut a = Arena::from_region(48);
    let first = a.try_allocate(1).unwrap();
    let second = a.try_allocate(17).unwrap();
    assert_eq!(first, 0);
    assert_eq!(second, 16);
    // Padded sizes 32 + 32 > 48: the second allocation is the one that
    // overflows, and it fails; the first stays where it was.
    let mut b = Arena::from_region(48);
    assert_eq!(b.try_allocate(20), Some(0));
    assert_eq!(b.try_allocate(20), None);
    assert_eq!(b.remaining(), 16);
}

#[test]
fn checked_allocate_bumps_like_try_allocate() {
    let mut a = Arena::new_owned(96);
    assert_eq!(a.allocate(8), 0);
    assert_eq!(a.allocate(40), 16);
    assert_eq!(a.allocate(16), 64);
    assert_eq!(a.remaining(), 16);
}

#[test]
fn thousand_byte_source_scenario() {
    // A raw buffer with 1000 bytes of source: the arena spans
    // [1008, 2^31 - 16), and wherever in it the root lands, the offset
    // recorded in the trailer stays strictly between those bounds.
    let l = compute_layout(1000).unwrap();
    let mut arena = Arena::from_region(l.data_size);
    let a1 = arena.try_allocate(640).unwrap();
    let a2 = arena.try_allocate(24).unwrap();
    for off in [a1, a2] {
        let root = u64::from(root_offset(&l, off, 1000));
        assert!((1008..TOTAL_SIZE - 16).contains(&root));
    }
    // Decoding is truncation from a 2^32-aligned base.
    let base: u64 = 5 << 32;
    let root = root_offset(&l, a2, 1000);
    assert_eq!(truncate_address(base + u64::from(root), base), root);
}

#[test]
fn arena_rejects_oversized_request_exactly() {
    let mut a = Arena::new_owned(160);
    assert_eq!(a.try_allocate(161), None);
    assert_eq!(a.try_allocate(160), Some(0));
    assert_eq!(a.remaining(), 0);
}

#[test]
fn search_accepts_only_full_alignment() {
    let mut s = AlignmentSearch::new();
    assert!(s.can_attempt());
    // An address off the 2^32 boundary is set aside, not kept.
    let r = s.step(Some((1u64 << 32) + 4096));
    assert!(matches!(r, AttemptDecision::RejectAndContinue));
    // The first address on the boundary is accepted.
    let r = s.step(Some(3u64 << 32));
    assert!(matches!(r, AttemptDecision::Accept));
    // A failed allocation ends the search.
    let mut t = AlignmentSearch::new();
    assert!(matches!(t.step(None), AttemptDecision::Fail));
}

#[test]
fn search_is_bounded_and_frees_every_reject() {
    let mut s = AlignmentSearch::new();
    let mut rejected: Vec<u64> = Vec::new();
    let mut accepted: Option<u64> = None;
    let attempts: Vec<u64> = (0..ALLOC_ATTEMPTS).map(|i| (1u64 << 32) + 16 * (i + 1)).collect();
    let mut made = 0usize;
    for addr in attempts.iter() {
        if !s.can_attempt() {
            break;
        }
        made += 1;
        match s.step(Some(*addr)) {
            AttemptDecision::Accept => {
                accepted = Some(*addr);
                break;
            }
            AttemptDecision::RejectAndContinue => rejected.push(*addr),
            AttemptDecision::Fail => break,
        }
    }
    // None of these lies on the boundary, so the bound is exhausted and
    // every attempt made ends up in the set to be freed: nothing leaks.
    assert_eq!(made, ALLOC_ATTEMPTS as usize);
    assert!(accepted.is_none());
    assert_eq!(rejected, attempts);
    assert!(!s.can_attempt());
}
