//! Buffer acquisition: deciding the bounded fallback search for an aligned
//! block.
//!
//! A raw buffer must sit on a `BUFFER_ALIGN` boundary. Most general
//! allocators cannot grant that alignment directly, so after one failed
//! attempt at full alignment the driver allocates at half the alignment a
//! bounded number of times, keeping the first block that happens to land
//! on the full boundary and setting every other one aside to be freed.
//! The decisions of that loop are made here; the driver only allocates,
//! frees and aborts as told.

use vstd::prelude::*;
use crate::layout::BUFFER_ALIGN;

verus! {

/// Bound on reduced-alignment attempts before acquisition fails.
pub const ALLOC_ATTEMPTS: u64 = 10;

/// Whether a block's base address sits on the full required boundary.
pub open spec fn base_aligned(addr: u64) -> bool {
    addr % BUFFER_ALIGN == 0
}

/// What the driver must do with one reduced-alignment attempt.
pub enum AttemptDecision {
    /// The block satisfies the full alignment: keep it as the buffer.
    Accept,
    /// The block misses the boundary: set it aside to be freed, try again.
    RejectAndContinue,
    /// The allocator returned nothing: stop and abort.
    Fail,
}

/// The bounded search for an aligned block. It counts the attempts the
/// driver may still make and judges each attempt's address.
pub struct AlignmentSearch {
    remaining: u64,
}

impl AlignmentSearch {
    /// How many attempts may still be made.
    pub closed spec fn attempts_left(self) -> int {
        self.remaining as int
    }

    pub fn new() -> (r: AlignmentSearch)
        ensures
            r.attempts_left() == ALLOC_ATTEMPTS,
    {
        AlignmentSearch { remaining: ALLOC_ATTEMPTS }
    }

    /// Whether another attempt may be made.
    pub fn can_attempt(&self) -> (r: bool)
        ensures
            r == (self.attempts_left() > 0),
    {
        self.remaining > 0
    }

    /// Judge one attempt: the address the allocator returned, or `None`
    /// when it returned nothing. Accepts exactly a full-alignment address,
    /// rejects any other block (to be freed, never leaked), fails on an
    /// exhausted allocator.
    pub fn step(&mut self, attempt: Option<u64>) -> (r: AttemptDecision)
        requires
            old(self).attempts_left() > 0,
        ensures
            final(self).attempts_left() == old(self).attempts_left() - 1,
            r is Accept <==> (attempt matches Some(a) && base_aligned(a)),
            r is RejectAndContinue <==> (attempt matches Some(a) && !base_aligned(a)),
            r is Fail <==> attempt is None,
    {
        self.remaining = self.remaining - 1;
        match attempt {
            None => AttemptDecision::Fail,
            Some(a) => {
                if a % BUFFER_ALIGN == 0 {
                    AttemptDecision::Accept
                } else {
                    AttemptDecision::RejectAndContinue
                }
            },
        }
    }
}

/// Index of the attempt the search accepts among the addresses the
/// allocator hands out in order, if any: the first one on the boundary.
pub open spec fn accepted_index(attempts: Seq<u64>) -> Option<int>
    decreases attempts.len(),
{
    if attempts.len() == 0 {
        None
    } else if base_aligned(attempts[0]) {
        Some(0)
    } else {
        match accepted_index(attempts.drop_first()) {
            Some(k) => Some(k + 1),
            None => None,
        }
    }
}

/// The search partitions its attempts: either it accepts an attempt, that
/// attempt sits on the full boundary, and every attempt made before it is
/// in the rejected set the driver frees; or it accepts none and every
/// attempt made is rejected and freed. No attempt is leaked either way,
/// and nothing past an accepted attempt is ever allocated.
pub proof fn lemma_search_partition(attempts: Seq<u64>)
    ensures
        match accepted_index(attempts) {
            Some(k) => {
                &&& 0 <= k < attempts.len()
                &&& base_aligned(attempts[k])
                &&& forall|i: int| 0 <= i < k ==> !base_aligned(#[trigger] attempts[i])
            },
            None => forall|i: int|
                0 <= i < attempts.len() ==> !base_aligned(#[trigger] attempts[i]),
        },
    decreases attempts.len(),
{
    if attempts.len() > 0 {
        let rest = attempts.drop_first();
        lemma_search_partition(rest);
        assert(forall|i: int| 0 <= i < rest.len() ==> rest[i] == attempts[i + 1]);
        if !base_aligned(attempts[0]) {
            match accepted_index(rest) {
                Some(k) => {
                    assert(attempts[k + 1] == rest[k]);
                    assert forall|i: int| 0 <= i < k + 1 implies !base_aligned(
                        #[trigger] attempts[i],
                    ) by {
                        if i > 0 {
                            assert(attempts[i] == rest[i - 1]);
                        }
                    }
                },
                None => {
                    assert forall|i: int| 0 <= i < attempts.len() implies !base_aligned(
                        #[trigger] attempts[i],
                    ) by {
                        if i > 0 {
                            assert(attempts[i] == rest[i - 1]);
                        }
                    }
                },
            }
        }
    }
}

} // verus!
