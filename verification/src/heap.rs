//! The store of boxes that cross the boundary by address.
//!
//! An address is never handed out twice, so a stale address is recognised for
//! the whole life of the heap.

use vstd::prelude::*;

verus! {

/// The address that names no box.
pub const NULL: usize = 0;

/// How many cells of `cells` are empty.
pub open spec fn count_empty<T>(cells: Seq<Option<T>>) -> nat
    decreases cells.len(),
{
    if cells.len() == 0 {
        0
    } else {
        count_empty(cells.drop_last()) + if cells.last().is_none() {
            1nat
        } else {
            0nat
        }
    }
}

pub proof fn lemma_count_empty_bound<T>(cells: Seq<Option<T>>)
    ensures
        count_empty(cells) <= cells.len(),
    decreases cells.len(),
{
    if cells.len() > 0 {
        lemma_count_empty_bound(cells.drop_last());
    }
}

pub proof fn lemma_count_empty_push<T>(cells: Seq<Option<T>>, cell: Option<T>)
    ensures
        count_empty(cells.push(cell)) == count_empty(cells) + if cell.is_none() {
            1nat
        } else {
            0nat
        },
{
    assert(cells.push(cell).drop_last() =~= cells);
}

pub proof fn lemma_count_empty_clear<T>(cells: Seq<Option<T>>, i: int)
    requires
        0 <= i < cells.len(),
        cells[i].is_some(),
    ensures
        count_empty(cells.update(i, None)) == count_empty(cells) + 1,
    decreases cells.len(),
{
    let after = cells.update(i, None);
    if i == cells.len() - 1 {
        assert(after.drop_last() =~= cells.drop_last());
    } else {
        lemma_count_empty_clear(cells.drop_last(), i);
        assert(after.drop_last() =~= cells.drop_last().update(i, None));
    }
}

pub proof fn lemma_count_empty_refill<T>(cells: Seq<Option<T>>, i: int, value: T)
    requires
        0 <= i < cells.len(),
        cells[i].is_some(),
    ensures
        count_empty(cells.update(i, Some(value))) == count_empty(cells),
    decreases cells.len(),
{
    let after = cells.update(i, Some(value));
    if i == cells.len() - 1 {
        assert(after.drop_last() =~= cells.drop_last());
    } else {
        lemma_count_empty_refill(cells.drop_last(), i, value);
        assert(after.drop_last() =~= cells.drop_last().update(i, Some(value)));
    }
}

/// The boxes that `cells` holds, by address: cell `i` is the box at `i + 1`.
pub open spec fn boxes_of<T>(cells: Seq<Option<T>>) -> Map<usize, T> {
    Map::new(
        |a: usize| 1 <= a <= cells.len() && cells[a - 1].is_some(),
        |a: usize| cells[a - 1].unwrap(),
    )
}

pub proof fn lemma_boxes_refill<T>(cells: Seq<Option<T>>, i: int, value: T)
    requires
        0 <= i < cells.len(),
        cells.len() < usize::MAX,
        cells[i].is_some(),
    ensures
        boxes_of(cells.update(i, Some(value))) == boxes_of(cells).insert(
            (i + 1) as usize,
            value,
        ),
{
    assert(boxes_of(cells.update(i, Some(value))) =~= boxes_of(cells).insert(
        (i + 1) as usize,
        value,
    ));
}

/// A heap of boxes, each holding one `T`.
pub struct Heap<T> {
    cells: Vec<Option<T>>,
    freed: usize,
}

impl<T> Heap<T> {
    /// Every address fits in a word, and the count of frees is exact.
    pub closed spec fn wf(self) -> bool {
        &&& self.cells@.len() < usize::MAX
        &&& self.freed == count_empty(self.cells@)
    }

    /// The boxes that are live, by address.
    pub closed spec fn live(self) -> Map<usize, T> {
        boxes_of(self.cells@)
    }

    /// How many boxes were ever allocated.
    pub closed spec fn allocations(self) -> nat {
        self.cells@.len()
    }

    /// How many boxes were ever freed.
    pub closed spec fn frees(self) -> nat {
        self.freed as nat
    }

    /// Whether `n` more boxes can be allocated.
    pub open spec fn has_room(self, n: nat) -> bool {
        self.allocations() + n < usize::MAX
    }

    pub fn new() -> (heap: Self)
        ensures
            heap.wf(),
            heap.live() == Map::<usize, T>::empty(),
            heap.allocations() == 0,
            heap.frees() == 0,
    {
        let heap = Heap { cells: Vec::new(), freed: 0 };
        assert(heap.live() =~= Map::<usize, T>::empty());
        heap
    }

    /// Puts `value` in a fresh box and returns the box's address.
    pub fn allocate(&mut self, value: T) -> (addr: usize)
        requires
            old(self).wf(),
            old(self).has_room(1),
        ensures
            final(self).wf(),
            addr == old(self).allocations() + 1,
            !old(self).live().dom().contains(addr),
            final(self).live() == old(self).live().insert(addr, value),
            final(self).allocations() == old(self).allocations() + 1,
            final(self).frees() == old(self).frees(),
    {
        proof {
            lemma_count_empty_push(self.cells@, Some(value));
        }
        self.cells.push(Some(value));
        let addr: usize = self.cells.len();
        assert(final(self).live() =~= old(self).live().insert(addr, value));
        addr
    }

    /// Takes the box at `addr` off the heap and returns what it held.
    pub fn free(&mut self, addr: usize) -> (value: Option<T>)
        requires
            old(self).wf(),
        ensures
            final(self).wf(),
            value == if old(self).live().dom().contains(addr) {
                Some(old(self).live()[addr])
            } else {
                None::<T>
            },
            final(self).live() == old(self).live().remove(addr),
            final(self).allocations() == old(self).allocations(),
            final(self).frees() == old(self).frees() + if value.is_some() {
                1nat
            } else {
                0nat
            },
    {
        if addr == 0 || addr > self.cells.len() {
            assert(final(self).live() =~= old(self).live().remove(addr));
            return None;
        }
        let value = self.cells[addr - 1].take();
        assert(self.cells@ =~= old(self).cells@.update(addr - 1, None));
        if value.is_some() {
            proof {
                lemma_count_empty_clear(old(self).cells@, addr - 1);
                lemma_count_empty_bound(self.cells@);
            }
            self.freed = self.freed + 1;
        } else {
            assert(self.cells@ =~= old(self).cells@);
        }
        assert(final(self).live() =~= old(self).live().remove(addr));
        value
    }

    /// How many boxes were ever allocated.
    pub fn allocated(&self) -> (n: usize)
        requires
            self.wf(),
        ensures
            n == self.allocations(),
    {
        self.cells.len()
    }

    /// How many boxes were ever freed.
    pub fn freed(&self) -> (n: usize)
        requires
            self.wf(),
        ensures
            n == self.frees(),
    {
        self.freed
    }

    /// Whether `n` more boxes can be allocated.
    pub fn room_for(&self, n: usize) -> (enough: bool)
        requires
            self.wf(),
        ensures
            enough == self.has_room(n as nat),
    {
        n < usize::MAX - self.cells.len()
    }

    /// Every live box has an address that was handed out.
    pub proof fn lemma_live_bound(self, addr: usize)
        requires
            self.live().dom().contains(addr),
        ensures
            1 <= addr <= self.allocations(),
    {
    }

    /// Every address that was handed out fits in a word.
    pub proof fn lemma_allocations_bound(self)
        requires
            self.wf(),
        ensures
            self.allocations() < usize::MAX,
    {
    }

    /// No more boxes were freed than were allocated.
    pub proof fn lemma_frees_bound(self)
        requires
            self.wf(),
        ensures
            self.frees() <= self.allocations(),
    {
        lemma_count_empty_bound(self.cells@);
    }

    /// Whether a live box stands at `addr`.
    pub fn contains(&self, addr: usize) -> (found: bool)
        requires
            self.wf(),
        ensures
            found == self.live().dom().contains(addr),
    {
        addr != 0 && addr <= self.cells.len() && self.cells[addr - 1].is_some()
    }

    /// Borrows what the box at `addr` holds.
    pub fn get(&self, addr: usize) -> (value: Option<&T>)
        requires
            self.wf(),
        ensures
            value == if self.live().dom().contains(addr) {
                Some(&self.live()[addr])
            } else {
                None::<&T>
            },
    {
        if addr == 0 || addr > self.cells.len() {
            None
        } else {
            self.cells[addr - 1].as_ref()
        }
    }

    /// Borrows what the box at `addr` holds, to change it in place.
    pub fn get_mut(&mut self, addr: usize) -> (value: Option<&mut T>)
        requires
            old(self).wf(),
        ensures
            final(self).wf(),
            final(self).allocations() == old(self).allocations(),
            final(self).frees() == old(self).frees(),
            match value {
                Some(slot) => old(self).live().dom().contains(addr) && *slot == old(
                    self,
                ).live()[addr] && final(self).live() == old(self).live().insert(
                    addr,
                    *final(slot),
                ),
                None => !old(self).live().dom().contains(addr) && final(self).live() == old(
                    self,
                ).live(),
            },
    {
        if addr == 0 || addr > self.cells.len() || self.cells[addr - 1].is_none() {
            return None;
        }
        match &mut self.cells[addr - 1] {
            Some(slot) => {
                proof {
                    lemma_count_empty_refill(old(self).cells@, addr - 1, *final(slot));
                    lemma_boxes_refill(old(self).cells@, addr - 1, *final(slot));
                }
                Some(slot)
            },
            None => None,
        }
    }
}

} // verus!
