//! The sliding window of historical reading batches.
//!
//! A fixed-capacity, FIFO-evicting buffer: when a batch arrives and the
//! window is full, the oldest batch leaves before the new one is appended.
//! Entries are plain copies of the readings — they carry no trace context, so
//! keeping a batch here never extends the lifetime of the context of the
//! observation it came from.

use vstd::prelude::*;
use std::collections::VecDeque;
use crate::obs::{CpuSample, CpuStats, samples_of};

verus! {

/// The mathematical values of a sequence of stored batches.
pub open spec fn batches_of(entries: Seq<Vec<CpuStats>>) -> Seq<Seq<CpuSample>> {
    entries.map_values(|v: Vec<CpuStats>| samples_of(v@))
}

/// One arrival at a window of capacity `cap`: evict the oldest batch first if
/// the window is full, then append the new batch.
pub open spec fn window_push(
    w: Seq<Seq<CpuSample>>,
    cap: int,
    batch: Seq<CpuSample>,
) -> Seq<Seq<CpuSample>> {
    if w.len() < cap {
        w.push(batch)
    } else {
        w.skip(1).push(batch)
    }
}

/// The window contents after feeding `batches`, oldest first, into an
/// initially empty window of capacity `cap`.
pub open spec fn window_after(batches: Seq<Seq<CpuSample>>, cap: int) -> Seq<Seq<CpuSample>>
    decreases batches.len(),
{
    if batches.len() == 0 {
        Seq::empty()
    } else {
        window_push(window_after(batches.drop_last(), cap), cap, batches.last())
    }
}

/// After any number of arrivals, the window holds exactly the most recent
/// `min(k, cap)` batches, oldest first: of `k` batches fed in order, the
/// first `k - cap` (if any) have been evicted, first in, first out.
pub proof fn lemma_window_after_keeps_recent(batches: Seq<Seq<CpuSample>>, cap: int)
    requires
        1 <= cap,
    ensures
        window_after(batches, cap) == batches.skip(
            if batches.len() <= cap {
                0
            } else {
                batches.len() - cap
            },
        ),
        window_after(batches, cap).len() == if batches.len() <= cap {
            batches.len() as int
        } else {
            cap
        },
    decreases batches.len(),
{
    if batches.len() == 0 {
        assert(window_after(batches, cap) =~= batches.skip(0));
    } else {
        let prev = batches.drop_last();
        lemma_window_after_keeps_recent(prev, cap);
        let w = window_after(prev, cap);
        if w.len() < cap {
            assert(window_after(batches, cap) =~= batches.skip(0));
        } else {
            assert(window_after(batches, cap) =~= batches.skip(batches.len() - cap));
        }
    }
}

/// The mathematical value of a [`SlidingWindow`].
pub ghost struct WindowView {
    /// The stored batches, oldest first.
    pub entries: Seq<Seq<CpuSample>>,
    /// The fixed capacity.
    pub capacity: usize,
}

/// A fixed-capacity, FIFO-evicting history of reading batches.
pub struct SlidingWindow {
    entries: VecDeque<Vec<CpuStats>>,
    capacity: usize,
}

impl View for SlidingWindow {
    type V = WindowView;

    closed spec fn view(&self) -> WindowView {
        WindowView { entries: batches_of(self.entries@), capacity: self.capacity }
    }
}

impl SlidingWindow {
    /// The window never outgrows its capacity, which is at least one.
    pub open spec fn wf(&self) -> bool {
        &&& self@.entries.len() <= self@.capacity
        &&& self@.capacity >= 1
    }

    /// An empty window of the given capacity.
    pub fn new(capacity: usize) -> (r: SlidingWindow)
        requires
            capacity >= 1,
        ensures
            r.wf(),
            r@.entries == Seq::<Seq<CpuSample>>::empty(),
            r@.capacity == capacity,
    {
        let r = SlidingWindow { entries: VecDeque::with_capacity(capacity), capacity };
        proof {
            assert(r@.entries =~= Seq::<Seq<CpuSample>>::empty());
        }
        r
    }

    /// How many batches the window holds now.
    pub fn len(&self) -> (r: usize)
        ensures
            r == self@.entries.len(),
    {
        self.entries.len()
    }

    /// The fixed capacity.
    pub fn capacity(&self) -> (r: usize)
        ensures
            r == self@.capacity,
    {
        self.capacity
    }

    /// Accept one arriving batch: evict the oldest entry first when the
    /// window is at capacity (FIFO), then append the new batch.
    pub fn push(&mut self, batch: Vec<CpuStats>)
        requires
            old(self).wf(),
        ensures
            final(self).wf(),
            final(self)@.capacity == old(self)@.capacity,
            final(self)@.entries == window_push(
                old(self)@.entries,
                old(self)@.capacity as int,
                samples_of(batch@),
            ),
    {
        if self.entries.len() == self.capacity {
            let _evicted = self.entries.pop_front();
            proof {
                assert(batches_of(self.entries@) =~= old(self)@.entries.skip(1));
            }
        }
        let ghost mid = batches_of(self.entries@);
        self.entries.push_back(batch);
        proof {
            assert(batches_of(self.entries@) =~= mid.push(samples_of(batch@)));
        }
    }

    /// Read access to the stored batch at `i`, oldest first.
    pub fn batch(&self, i: usize) -> (r: &Vec<CpuStats>)
        requires
            i < self@.entries.len(),
        ensures
            samples_of(r@) == self@.entries[i as int],
    {
        &self.entries[i]
    }
}

} // verus!
