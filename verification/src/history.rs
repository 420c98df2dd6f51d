//! A bounded, insertion-ordered buffer of snapshots with fixed
//! retention: once the capacity is reached, the oldest entry is evicted
//! for each new one appended.
//!
//! Every snapshot ever appended gets a logical tick, the running count
//! of appends at the moment it arrived. Entry `i` of the buffer carries
//! tick `evicted + i`, so the buffer is strictly ordered by tick and no
//! two entries ever share one.

use vstd::prelude::*;

use crate::stats::SnapshotView;
use crate::stats::SystemUtilization;
use std::collections::VecDeque;

verus! {

/// What appending `x` does to the buffer contents `s` under capacity
/// `cap`: the new snapshot goes at the back, and the oldest entry
/// leaves if the buffer was full.
pub open spec fn spec_push(s: Seq<SnapshotView>, x: SnapshotView, cap: nat) -> Seq<SnapshotView> {
    if s.len() < cap {
        s.push(x)
    } else {
        s.drop_first().push(x)
    }
}

/// Bounded chronological buffer of snapshots, oldest first.
pub struct History {
    entries: VecDeque<SystemUtilization>,
    capacity: usize,
    evicted: Ghost<nat>,
}

impl History {
    /// The buffered snapshots, oldest first.
    pub closed spec fn snapshots(&self) -> Seq<SnapshotView> {
        self.entries.deep_view()
    }

    /// The retention capacity the buffer was created with.
    pub closed spec fn spec_capacity(&self) -> nat {
        self.capacity as nat
    }

    /// The logical tick of entry `i`: how many snapshots had been
    /// appended before it arrived.
    pub closed spec fn tick_of(&self, i: int) -> int {
        self.evicted@ + i
    }

    /// The tick the next appended snapshot will get: the total number
    /// of appends so far.
    pub closed spec fn next_tick(&self) -> nat {
        self.evicted@ + self.entries@.len()
    }

    /// Capacity is positive and never exceeded.
    pub closed spec fn wf(&self) -> bool {
        1 <= self.capacity && self.entries@.len() <= self.capacity
    }

    /// An empty buffer that will retain at most `capacity` snapshots.
    pub fn new(capacity: usize) -> (h: Self)
        requires
            capacity >= 1,
        ensures
            h.wf(),
            h.spec_capacity() == capacity,
            h.snapshots() == Seq::<SnapshotView>::empty(),
            h.next_tick() == 0,
    {
        let h = History { entries: VecDeque::new(), capacity, evicted: Ghost(0) };
        proof {
            assert(h.snapshots() =~= Seq::<SnapshotView>::empty());
        }
        h
    }

    /// The number of buffered snapshots.
    pub fn len(&self) -> (n: usize)
        ensures
            n == self.snapshots().len(),
    {
        self.entries.len()
    }

    /// The retention capacity.
    pub fn capacity(&self) -> (c: usize)
        ensures
            c == self.spec_capacity(),
    {
        self.capacity
    }

    /// The snapshot at position `i`, oldest first.
    pub fn get(&self, i: usize) -> (r: &SystemUtilization)
        requires
            i < self.snapshots().len(),
        ensures
            r@ == self.snapshots()[i as int],
    {
        &self.entries[i]
    }

    /// Appends a snapshot, evicting the oldest entry if the buffer is
    /// full. The new snapshot gets the next logical tick.
    pub fn push(&mut self, snap: SystemUtilization)
        requires
            old(self).wf(),
        ensures
            final(self).wf(),
            final(self).spec_capacity() == old(self).spec_capacity(),
            final(self).snapshots() == spec_push(
                old(self).snapshots(),
                snap@,
                old(self).spec_capacity(),
            ),
            final(self).next_tick() == old(self).next_tick() + 1,
            final(self).tick_of(final(self).snapshots().len() - 1) == old(self).next_tick(),
    {
        if self.entries.len() == self.capacity {
            let _evicted_snap = self.entries.pop_front();
            proof {
                self.evicted@ = self.evicted@ + 1;
            }
        }
        self.entries.push_back(snap);
        proof {
            assert(self.snapshots() =~= spec_push(
                old(self).snapshots(),
                snap@,
                old(self).spec_capacity(),
            ));
        }
    }

    /// The buffer never holds more than its retention capacity, and its
    /// entries carry strictly increasing logical ticks: no two buffered
    /// snapshots share a tick, older entries have smaller ticks, and
    /// the next snapshot to be appended gets a tick greater than all of
    /// them.
    pub proof fn lemma_bounded_and_ordered(&self)
        requires
            self.wf(),
        ensures
            self.snapshots().len() <= self.spec_capacity(),
            forall|i: int, j: int|
                0 <= i < j < self.snapshots().len() ==> self.tick_of(i) < self.tick_of(j),
            forall|i: int| 0 <= i < self.snapshots().len() ==> self.tick_of(i) < self.next_tick(),
            forall|i: int|
                0 <= i < self.snapshots().len() ==> self.tick_of(i) == self.next_tick() - (
                self.snapshots().len() - i),
    {
    }
}

} // verus!
