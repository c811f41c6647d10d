//! Bump arena over a contiguous region, modeled by offsets from the
//! region's start.
//!
//! Allocations advance a single cursor and are never individually freed or
//! moved; the whole region is released at once. The arena either owns its
//! backing store (owned mode, freed in bulk on release) or borrows a
//! caller-supplied region (raw mode, never reclaimed by the arena).
//!
//! The cursor is kept 16-byte aligned by padding every request to the next
//! multiple of 16, which covers any per-type alignment up to 16 — the
//! largest alignment the backing arena guarantees.

use vstd::prelude::*;
use crate::layout::round_up_16;
use crate::layout::ARENA_MIN_SIZE;

verus! {

/// A bump allocator over `capacity()` bytes. `allocations()` records the
/// offset and requested size of every allocation made, in order.
pub struct Arena {
    size: u64,
    cursor: u64,
    owned: bool,
    allocs: Ghost<Seq<(int, int)>>,
}

/// A request's padded size: what an allocation consumes of the region.
pub open spec fn padded(n: int) -> int {
    round_up_16(n)
}

impl Arena {
    /// Size of the managed region in bytes.
    pub closed spec fn capacity(self) -> int {
        self.size as int
    }

    /// Next free offset; everything below it is handed out or padding.
    pub closed spec fn cursor(self) -> int {
        self.cursor as int
    }

    /// Whether the arena owns its backing store.
    pub closed spec fn is_owned(self) -> bool {
        self.owned
    }

    /// The (offset, size) of every allocation made so far, in order.
    pub closed spec fn allocations(self) -> Seq<(int, int)> {
        self.allocs@
    }

    /// Every allocated region lies below the cursor, regions never overlap,
    /// and the cursor never exceeds the region's size.
    pub open spec fn wf(self) -> bool {
        &&& 0 <= self.cursor() <= self.capacity()
        &&& self.cursor() % 16 == 0
        &&& forall|i: int|
            0 <= i < self.allocations().len() ==> {
                let a = #[trigger] self.allocations()[i];
                0 <= a.0 && 0 <= a.1 && a.0 + a.1 <= self.cursor()
            }
        &&& forall|i: int, j: int|
            0 <= i < j < self.allocations().len()
                ==> (#[trigger] self.allocations()[i]).0 + self.allocations()[i].1
                <= (#[trigger] self.allocations()[j]).0
    }

    /// Owned mode: the arena allocates and later bulk-frees its own region.
    pub fn new_owned(size: u64) -> (r: Arena)
        ensures
            r.wf(),
            r.capacity() == size,
            r.cursor() == 0,
            r.is_owned(),
            r.allocations() == Seq::<(int, int)>::empty(),
    {
        Arena { size, cursor: 0, owned: true, allocs: Ghost(Seq::empty()) }
    }

    /// Raw mode: the arena manages a caller-supplied region it does not
    /// own and must never reclaim; the region must reach the minimum size.
    pub fn from_region(size: u64) -> (r: Arena)
        requires
            size >= ARENA_MIN_SIZE,
        ensures
            r.wf(),
            r.capacity() == size,
            r.cursor() == 0,
            !r.is_owned(),
            r.allocations() == Seq::<(int, int)>::empty(),
    {
        Arena { size, cursor: 0, owned: false, allocs: Ghost(Seq::empty()) }
    }

    /// Bytes not yet handed out.
    pub fn remaining(&self) -> (r: u64)
        requires
            self.wf(),
        ensures
            r == self.capacity() - self.cursor(),
    {
        self.size - self.cursor
    }

    /// Bump allocation. Returns the fresh region's offset, or `None` when
    /// the padded request exceeds what is left — exactly then. A fresh
    /// region never overlaps an earlier one, and earlier allocations are
    /// untouched: nothing is ever moved.
    pub fn try_allocate(&mut self, size: u64) -> (r: Option<u64>)
        requires
            old(self).wf(),
        ensures
            final(self).wf(),
            final(self).capacity() == old(self).capacity(),
            final(self).is_owned() == old(self).is_owned(),
            r is Some <==> old(self).cursor() + padded(size as int) <= old(self).capacity(),
            r matches Some(off) ==> {
                &&& off == old(self).cursor()
                &&& off + size <= old(self).capacity()
                &&& final(self).cursor() == off + padded(size as int)
                &&& final(self).allocations() == old(self).allocations().push(
                    (off as int, size as int),
                )
            },
            r is None ==> *final(self) == *old(self),
    {
        let remaining: u64 = self.size - self.cursor;
        if size > remaining {
            return None;
        }
        let rem16: u64 = size % 16;
        let pad: u64 = if rem16 == 0 {
            0
        } else {
            16 - rem16
        };
        if pad > remaining - size {
            return None;
        }
        let off: u64 = self.cursor;
        self.cursor = self.cursor + size + pad;
        proof {
            self.allocs@ = self.allocs@.push((off as int, size as int));
            let prev = old(self).allocations();
            let now = self.allocations();
            assert(now == prev.push((off as int, size as int)));
            assert forall|i: int|
                0 <= i < now.len() implies {
                    let a = #[trigger] now[i];
                    0 <= a.0 && 0 <= a.1 && a.0 + a.1 <= self.cursor as int
                } by {
                if i < prev.len() {
                    assert(now[i] == prev[i]);
                } else {
                    assert(now[i] == (off as int, size as int));
                }
            }
            assert forall|i: int, j: int|
                0 <= i < j < now.len() implies (#[trigger] now[i]).0 + now[i].1
                    <= (#[trigger] now[j]).0 by {
                assert(now[i] == if i < prev.len() {
                    prev[i]
                } else {
                    (off as int, size as int)
                });
                if j == prev.len() {
                    assert(now[j] == (off as int, size as int));
                } else {
                    assert(now[j] == prev[j]);
                }
            }
        }
        Some(off)
    }

    /// Bump allocation where the caller has already ensured capacity: the
    /// model of the fatal-on-overflow allocation, with the overflowing
    /// inputs excluded up front.
    pub fn allocate(&mut self, size: u64) -> (off: u64)
        requires
            old(self).wf(),
            old(self).cursor() + padded(size as int) <= old(self).capacity(),
        ensures
            final(self).wf(),
            final(self).capacity() == old(self).capacity(),
            final(self).is_owned() == old(self).is_owned(),
            off == old(self).cursor(),
            off + size <= old(self).capacity(),
            final(self).cursor() == off + padded(size as int),
            final(self).allocations() == old(self).allocations().push((off as int, size as int)),
    {
        let r = self.try_allocate(size);
        match r {
            Some(off) => off,
            None => unreached(),
        }
    }
}

/// Sum of the padded sizes of a sequence of requests.
pub open spec fn sum_padded(sizes: Seq<int>) -> int
    decreases sizes.len(),
{
    if sizes.len() == 0 {
        0
    } else {
        padded(sizes[0]) + sum_padded(sizes.drop_first())
    }
}

/// One request fits when its padded size does not pass capacity.
pub open spec fn step_fits(cursor: int, capacity: int, size: int) -> bool {
    cursor + padded(size) <= capacity
}

/// Whether every request of `sizes`, made in order from `cursor`, fits —
/// the condition under which each `try_allocate` in turn returns `Some`.
pub open spec fn all_fit(cursor: int, capacity: int, sizes: Seq<int>) -> bool
    decreases sizes.len(),
{
    sizes.len() == 0 || (step_fits(cursor, capacity, sizes[0]) && all_fit(
        cursor + padded(sizes[0]),
        capacity,
        sizes.drop_first(),
    ))
}

/// How many initial requests succeed before one fails to fit.
pub open spec fn fits_count(cursor: int, capacity: int, sizes: Seq<int>) -> int
    decreases sizes.len(),
{
    if sizes.len() == 0 {
        0
    } else if step_fits(cursor, capacity, sizes[0]) {
        1 + fits_count(cursor + padded(sizes[0]), capacity, sizes.drop_first())
    } else {
        0
    }
}

pub proof fn lemma_sum_padded_nonneg(sizes: Seq<int>)
    requires
        forall|i: int| 0 <= i < sizes.len() ==> #[trigger] sizes[i] >= 0,
    ensures
        sum_padded(sizes) >= 0,
    decreases sizes.len(),
{
    if sizes.len() > 0 {
        let rest = sizes.drop_first();
        assert(forall|i: int| 0 <= i < rest.len() ==> #[trigger] rest[i] == sizes[i + 1]);
        lemma_sum_padded_nonneg(rest);
        crate::layout::lemma_round_up_16(sizes[0]);
    }
}

/// A sequence of requests whose padded sizes sum to no more than what is
/// left of the arena all succeed: each `try_allocate` in turn returns
/// `Some`, and by `wf` the regions handed out are pairwise disjoint and
/// never moved afterwards.
pub proof fn lemma_requests_within_budget_fit(cursor: int, capacity: int, sizes: Seq<int>)
    requires
        0 <= cursor,
        forall|i: int| 0 <= i < sizes.len() ==> #[trigger] sizes[i] >= 0,
        cursor + sum_padded(sizes) <= capacity,
    ensures
        all_fit(cursor, capacity, sizes),
    decreases sizes.len(),
{
    if sizes.len() > 0 {
        let rest = sizes.drop_first();
        assert(forall|i: int| 0 <= i < rest.len() ==> #[trigger] rest[i] == sizes[i + 1]);
        lemma_sum_padded_nonneg(rest);
        crate::layout::lemma_round_up_16(sizes[0]);
        lemma_requests_within_budget_fit(cursor + padded(sizes[0]), capacity, rest);
    }
}

/// A sequence of requests whose padded sizes sum to more than what is
/// left fails exactly at the first request that would overflow: every
/// request before `fits_count` succeeds, the request at `fits_count`
/// does not fit, and no allocation after it is made — the model of the
/// fatal failure that leaves no partial allocation observable as valid.
pub proof fn lemma_requests_beyond_budget_fail(cursor: int, capacity: int, sizes: Seq<int>)
    requires
        0 <= cursor <= capacity,
        forall|i: int| 0 <= i < sizes.len() ==> #[trigger] sizes[i] >= 0,
        cursor + sum_padded(sizes) > capacity,
    ensures
        0 <= fits_count(cursor, capacity, sizes) < sizes.len(),
        forall|j: int|
            0 <= j < fits_count(cursor, capacity, sizes) ==> step_fits(
                cursor + sum_padded(sizes.take(j)),
                capacity,
                #[trigger] sizes[j],
            ),
        !step_fits(
            cursor + sum_padded(sizes.take(fits_count(cursor, capacity, sizes))),
            capacity,
            sizes[fits_count(cursor, capacity, sizes)],
        ),
    decreases sizes.len(),
{
    let k = fits_count(cursor, capacity, sizes);
    let rest = sizes.drop_first();
    assert(forall|i: int| 0 <= i < rest.len() ==> #[trigger] rest[i] == sizes[i + 1]);
    if step_fits(cursor, capacity, sizes[0]) {
        let cursor2 = cursor + padded(sizes[0]);
        crate::layout::lemma_round_up_16(sizes[0]);
        lemma_requests_beyond_budget_fail(cursor2, capacity, rest);
        let k2 = fits_count(cursor2, capacity, rest);
        assert(k == 1 + k2);
        assert forall|j: int| 0 <= j < k implies step_fits(
            cursor + sum_padded(sizes.take(j)),
            capacity,
            #[trigger] sizes[j],
        ) by {
            if j == 0 {
                assert(sizes.take(0) =~= Seq::<int>::empty());
            } else {
                lemma_take_shift(sizes, j);
                assert(step_fits(cursor2 + sum_padded(rest.take(j - 1)), capacity, rest[j - 1]));
            }
        }
        lemma_take_shift(sizes, k);
        assert(!step_fits(cursor2 + sum_padded(rest.take(k2)), capacity, rest[k2]));
    } else {
        assert(k == 0);
        assert(sizes.take(0) =~= Seq::<int>::empty());
    }
}

/// The budget laws at an arena: requests whose padded sizes sum to no
/// more than what the arena has left all succeed (`try_allocate` answers
/// `Some` to each in turn), and by `wf` every region handed out is
/// disjoint from every other and never moved; requests that sum to more
/// fail exactly at the first one that would overflow.
pub proof fn lemma_arena_budget(a: Arena, sizes: Seq<int>)
    requires
        a.wf(),
        forall|i: int| 0 <= i < sizes.len() ==> #[trigger] sizes[i] >= 0,
    ensures
        a.cursor() + sum_padded(sizes) <= a.capacity() ==> all_fit(
            a.cursor(),
            a.capacity(),
            sizes,
        ),
        a.cursor() + sum_padded(sizes) > a.capacity() ==> !all_fit(
            a.cursor(),
            a.capacity(),
            sizes,
        ) && fits_count(a.cursor(), a.capacity(), sizes) < sizes.len(),
{
    if a.cursor() + sum_padded(sizes) <= a.capacity() {
        lemma_requests_within_budget_fit(a.cursor(), a.capacity(), sizes);
    } else {
        lemma_requests_beyond_budget_fail(a.cursor(), a.capacity(), sizes);
        lemma_fits_count_bounds(a.cursor(), a.capacity(), sizes);
    }
}

/// `all_fit` holds exactly when every request is counted as fitting.
proof fn lemma_fits_count_bounds(cursor: int, capacity: int, sizes: Seq<int>)
    ensures
        fits_count(cursor, capacity, sizes) == sizes.len() <==> all_fit(cursor, capacity, sizes),
        0 <= fits_count(cursor, capacity, sizes) <= sizes.len(),
    decreases sizes.len(),
{
    if sizes.len() > 0 {
        lemma_fits_count_bounds(cursor + padded(sizes[0]), capacity, sizes.drop_first());
    }
}

/// Shifting a prefix sum past the first element.
proof fn lemma_take_shift(sizes: Seq<int>, j: int)
    requires
        1 <= j <= sizes.len(),
    ensures
        sum_padded(sizes.take(j)) == padded(sizes[0]) + sum_padded(sizes.drop_first().take(j - 1)),
{
    let t = sizes.take(j);
    assert(t.len() == j);
    assert(t[0] == sizes[0]);
    assert(t.drop_first() =~= sizes.drop_first().take(j - 1));
}

} // verus!
