//! The read-copy-update protocol over a redundant slot ring: a write fills the
//! slot after the active one and then publishes it by moving the active index.
use vstd::prelude::*;
use vstd::arithmetic::div_mod::{
    lemma_add_mod_noop_right, lemma_fundamental_div_mod, lemma_mod_add_multiples_vanish,
    lemma_mod_multiples_basic, lemma_small_mod,
};
use crate::layout::{RcuError, RingLayout};

verus! {

/// What a ring holds: each slot's value (`None` until it is first written) and
/// the active index, a byte offset from the first slot.
pub ghost struct RingState<T> {
    pub layout: RingLayout,
    pub slots: Seq<Option<T>>,
    pub active: int,
}

impl<T> RingState<T> {
    pub open spec fn wf(self) -> bool {
        &&& self.layout.wf()
        &&& self.slots.len() == self.layout.slots_spec()
        &&& self.layout.valid_index(self.active)
    }

    /// A freshly created ring: nothing written, the first slot active.
    pub open spec fn fresh(layout: RingLayout) -> RingState<T> {
        RingState { layout, slots: Seq::new(layout.slots_spec() as nat, |i: int| None), active: 0 }
    }

    /// The value in the slot that `index` names.
    pub open spec fn at(self, index: int) -> Option<T> {
        self.slots[self.layout.slot_of(index)]
    }

    /// The value that a reader sees now.
    pub open spec fn current(self) -> Option<T> {
        self.at(self.active)
    }

    /// The ring after one write of `v`: `v` fills the next slot, which becomes active.
    pub open spec fn after_write(self, v: T) -> RingState<T> {
        let next = self.layout.next_index_spec(self.active);
        RingState {
            layout: self.layout,
            slots: self.slots.update(self.layout.slot_of(next), Some(v)),
            active: next,
        }
    }

    /// The ring after writing each of `ws` in turn.
    pub open spec fn after_writes(self, ws: Seq<T>) -> RingState<T>
        decreases ws.len(),
    {
        if ws.len() == 0 {
            self
        } else {
            self.after_writes(ws.drop_last()).after_write(ws.last())
        }
    }
}

/// Round trip: after `write(v)` a read returns `v`, and the ring stays well formed.
pub proof fn lemma_write_then_read<T>(s: RingState<T>, v: T)
    requires
        s.wf(),
    ensures
        s.after_write(v).wf(),
        s.after_write(v).current() == Some(v),
{
    s.layout.lemma_next_slot(s.active);
    s.layout.lemma_slot_of_valid(s.layout.next_index_spec(s.active));
}

proof fn lemma_mod_step(a: int, k: int, n: int)
    requires
        0 <= a < n,
        0 <= k < n,
    ensures
        k > 0 ==> (a + k) % n != a,
        ((a + k) % n + 1) % n == (a + k + 1) % n,
{
    lemma_add_mod_noop_right(1, a + k, n);
    assert(1 + (a + k) % n == (a + k) % n + 1);
    assert(1 + (a + k) == a + k + 1);
    if a + k < n {
        lemma_small_mod((a + k) as nat, n as nat);
    } else {
        lemma_mod_add_multiples_vanish(a + k - n, n);
        lemma_small_mod((a + k - n) as nat, n as nat);
    }
}

/// Any number of writes keeps the ring well formed and moves the active slot
/// on by their count, cyclically.
pub proof fn lemma_writes_advance<T>(s: RingState<T>, ws: Seq<T>)
    requires
        s.wf(),
    ensures
        s.after_writes(ws).wf(),
        s.after_writes(ws).layout == s.layout,
        s.layout.slot_of(s.after_writes(ws).active)
            == (s.layout.slot_of(s.active) + ws.len()) % s.layout.slots_spec(),
    decreases ws.len(),
{
    let n = s.layout.slots_spec();
    s.layout.lemma_slot_of_valid(s.active);
    if ws.len() == 0 {
        lemma_small_mod(s.layout.slot_of(s.active) as nat, n as nat);
    } else {
        let prev = s.after_writes(ws.drop_last());
        lemma_writes_advance(s, ws.drop_last());
        lemma_write_then_read(prev, ws.last());
        s.layout.lemma_next_slot(prev.active);
        let a = s.layout.slot_of(s.active);
        let k = ws.len() - 1;
        lemma_add_mod_noop_right(1, a + k, n);
        assert(1 + (a + k) == a + (k + 1));
    }
}

/// No torn read, and the redundancy bound: a reader that took the active index
/// at some moment and reads its slot after fewer writes than there are slots
/// still sees the complete value that was current at that moment.
pub proof fn lemma_stale_index_survives<T>(s: RingState<T>, ws: Seq<T>)
    requires
        s.wf(),
        ws.len() < s.layout.slots_spec(),
    ensures
        s.after_writes(ws).at(s.active) == s.current(),
    decreases ws.len(),
{
    if ws.len() > 0 {
        let prev = s.after_writes(ws.drop_last());
        lemma_stale_index_survives(s, ws.drop_last());
        lemma_writes_advance(s, ws.drop_last());
        s.layout.lemma_next_slot(prev.active);
        s.layout.lemma_slot_of_valid(s.active);
        let n = s.layout.slots_spec();
        let a = s.layout.slot_of(s.active);
        lemma_mod_step(a, ws.len() - 1, n);
        lemma_mod_step(a, ws.len() as int, n);
        assert((a + ws.len()) % n != a);
    }
}

/// Every reader of a ring sees the published values in the order they were
/// written: after each write, what a read returns is the value just written.
pub proof fn lemma_published_in_order<T>(s: RingState<T>, ws: Seq<T>, j: int)
    requires
        s.wf(),
        0 <= j < ws.len(),
    ensures
        s.after_writes(ws.take(j + 1)).current() == Some(ws[j]),
{
    let upto = ws.take(j + 1);
    assert(upto.drop_last() == ws.take(j));
    lemma_writes_advance(s, ws.take(j));
    lemma_write_then_read(s.after_writes(ws.take(j)), ws[j]);
}

/// Every index that a ring publishes, however many writes it has seen, passes
/// the validity pass over a mapping whose base is non-null and aligned, and
/// the pass gives the address of the slot that index names.
pub proof fn lemma_published_index_passes_check<T>(s: RingState<T>, ws: Seq<T>, base: usize)
    requires
        s.wf(),
        base != 0,
        s.layout.base_aligned(base as int),
        base as int + s.layout.values_size() <= usize::MAX,
    ensures
        s.layout.validate(base, s.after_writes(ws).active as usize)
            == Ok::<usize, RcuError>((base + s.after_writes(ws).active) as usize),
{
    let l = s.layout;
    let t = s.after_writes(ws);
    lemma_writes_advance(s, ws);
    l.lemma_slot_of_valid(t.active);
    let a = l.slot_align_spec();
    let size = l.slot_size_spec();
    let m = l.slot_of(t.active);
    lemma_fundamental_div_mod(base as int, a);
    lemma_fundamental_div_mod(size, a);
    let bq = base as int / a;
    let sq = size / a;
    assert(base as int + t.active == (bq + m * sq) * a) by (nonlinear_arith)
        requires
            base as int == a * bq,
            size == a * sq,
            t.active == m * size,
    ;
    lemma_mod_multiples_basic(bq + m * sq, a);
    let n = l.slots_spec();
    assert(t.active <= n * size) by (nonlinear_arith)
        requires
            0 <= m < n,
            t.active == m * size,
            size > 0,
    ;
}

/// A redundant slot ring held in process memory, following the same protocol
/// and the same byte indexing as a ring in a shared segment.
pub struct SlotRing<T> {
    layout: RingLayout,
    values: Vec<Option<T>>,
    active_index: usize,
}

impl<T> View for SlotRing<T> {
    type V = RingState<T>;

    closed spec fn view(&self) -> RingState<T> {
        RingState { layout: self.layout, slots: self.values@, active: self.active_index as int }
    }
}

impl<T> SlotRing<T> {
    pub open spec fn wf(&self) -> bool {
        self@.wf()
    }

    /// A ring with nothing written yet and the first slot active.
    pub fn create(layout: RingLayout) -> (r: SlotRing<T>)
        requires
            layout.wf(),
        ensures
            r.wf(),
            r@ == RingState::<T>::fresh(layout),
    {
        let n = layout.slots();
        let mut values: Vec<Option<T>> = Vec::new();
        let mut i: usize = 0;
        while i < n
            invariant
                i <= n,
                n == layout.slots_spec(),
                values@.len() == i,
                forall|k: int| 0 <= k < i ==> values@[k] is None,
            decreases n - i,
        {
            values.push(None);
            i = i + 1;
        }
        let r = SlotRing { layout, values, active_index: layout.initial_index() };
        assert(r@.slots =~= RingState::<T>::fresh(layout).slots);
        r
    }

    pub fn layout(&self) -> (r: RingLayout)
        ensures
            r == self@.layout,
    {
        self.layout
    }

    /// The active index, as a reader loads it.
    pub fn active_index(&self) -> (r: usize)
        ensures
            r == self@.active,
    {
        self.active_index
    }

    /// The value in the active slot; `None` before the first write.
    pub fn read(&self) -> (r: Option<&T>)
        requires
            self.wf(),
        ensures
            match r {
                Some(v) => self@.current() == Some(*v),
                None => self@.current() is None,
            },
    {
        proof {
            self.layout.lemma_slot_of_valid(self.active_index as int);
        }
        let slot = self.active_index / self.layout.slot_size();
        match &self.values[slot] {
            Some(v) => Some(v),
            None => None,
        }
    }

    /// The value in the slot that an earlier loaded `index` names, after the
    /// validity pass over that index.
    pub fn read_at(&self, index: usize) -> (r: Result<Option<&T>, RcuError>)
        requires
            self.wf(),
        ensures
            r is Err <==> !self@.layout.valid_index(index as int),
            r is Err ==> r == Err::<Option<&T>, RcuError>(RcuError::InvalidOffset(index)),
            r matches Ok(Some(v)) ==> self@.at(index as int) == Some(*v),
            r matches Ok(None) ==> self@.at(index as int) is None,
    {
        let size = self.layout.slot_size();
        let n = self.layout.slots();
        proof {
            assert((n as int - 1) * size as int <= n as int * size as int) by (nonlinear_arith)
                requires
                    size > 0,
            ;
        }
        if index % size != 0 || index > (n - 1) * size {
            return Err(RcuError::InvalidOffset(index));
        }
        proof {
            self.layout.lemma_slot_of_valid(index as int);
        }
        let slot = index / size;
        match &self.values[slot] {
            Some(v) => Ok(Some(v)),
            None => Ok(None),
        }
    }

    /// Fills the slot after the active one with `v`, then publishes it.
    pub fn write(&mut self, v: T)
        requires
            old(self).wf(),
        ensures
            final(self).wf(),
            final(self)@ == old(self)@.after_write(v),
    {
        let next = self.layout.next_index(self.active_index);
        proof {
            self.layout.lemma_slot_of_valid(next as int);
        }
        let slot = next / self.layout.slot_size();
        self.values.set(slot, Some(v));
        self.active_index = next;
    }
}

} // verus!
