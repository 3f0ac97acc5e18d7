//! Byte layout of a redundant slot ring and the validity pass over a mapping.
use vstd::prelude::*;

verus! {

/// Width in bytes of the atomic word that holds the active index.
pub const INDEX_WORD: usize = 8;

/// Why a named segment could not be created or opened.
#[derive(Clone, Copy, Debug, PartialEq, Eq, Structural)]
pub enum SegmentFailure {
    /// No segment is bound to the name.
    NotFound,
    /// A segment is already bound to the name.
    NameAlreadyBound,
    /// Any other failure of the shared-memory collaborator.
    Other,
}

/// Errors of the slot ring and of the segment that holds it.
#[derive(Clone, Copy, Debug, PartialEq, Eq, Structural)]
pub enum RcuError {
    /// The mapping's base address was null (first) or misaligned (second).
    InvalidShmemPtr(bool, bool),
    /// The address of the active slot was null (first) or misaligned (second).
    InvalidGptr(bool, bool),
    /// The active index is out of range or not on a slot boundary.
    InvalidOffset(usize),
    /// The segment could not be created or opened.
    SharedMemoryError(SegmentFailure),
}

/// Where the slots and the active index lie inside a segment: `slots` slots of
/// `slot_size` bytes each, followed by one index word.
#[derive(Clone, Copy, Debug, PartialEq, Eq, Structural)]
pub struct RingLayout {
    slot_size: usize,
    slot_align: usize,
    slots: usize,
}

pub open spec fn round_up_to_word(n: int) -> int {
    if n % (INDEX_WORD as int) == 0 {
        n
    } else {
        n + (INDEX_WORD as int - n % (INDEX_WORD as int))
    }
}

impl RingLayout {
    pub closed spec fn slot_size_spec(self) -> int {
        self.slot_size as int
    }

    pub closed spec fn slot_align_spec(self) -> int {
        self.slot_align as int
    }

    pub closed spec fn slots_spec(self) -> int {
        self.slots as int
    }

    /// Shape constraints that every layout meets.
    pub open spec fn wf(self) -> bool {
        &&& self.slot_size_spec() > 0
        &&& self.slot_align_spec() > 0
        &&& self.slots_spec() > 0
        &&& self.slot_size_spec() % self.slot_align_spec() == 0
        &&& self.slots_spec() * self.slot_size_spec() + 2 * INDEX_WORD <= usize::MAX
    }

    /// Bytes taken by the slots.
    pub open spec fn values_size(self) -> int {
        self.slots_spec() * self.slot_size_spec()
    }

    /// Byte offset of the index word: the end of the slots, rounded up to a word.
    pub open spec fn index_offset_spec(self) -> int {
        round_up_to_word(self.values_size())
    }

    /// Bytes that a segment holding this ring needs.
    pub open spec fn segment_size_spec(self) -> int {
        self.index_offset_spec() + INDEX_WORD
    }

    /// An active index names the start of a slot.
    pub open spec fn valid_index(self, index: int) -> bool {
        &&& 0 <= index <= (self.slots_spec() - 1) * self.slot_size_spec()
        &&& index % self.slot_size_spec() == 0
    }

    /// The slot that a valid index names.
    pub open spec fn slot_of(self, index: int) -> int {
        index / self.slot_size_spec()
    }

    /// The index that a write publishes after `index`: the next slot, cyclically.
    pub open spec fn next_index_spec(self, index: int) -> int {
        (index + self.slot_size_spec()) % self.values_size()
    }

    /// A base address that the ring can be laid over.
    pub open spec fn base_aligned(self, base: int) -> bool {
        base % self.slot_align_spec() == 0 && base % (INDEX_WORD as int) == 0
    }

    /// The outcome of the validity pass over a mapping at `base` whose index
    /// word holds `active`: the address of the active slot, or the first defect.
    pub open spec fn validate(self, base: usize, active: usize) -> Result<usize, RcuError> {
        if base == 0 || !self.base_aligned(base as int) {
            Err(RcuError::InvalidShmemPtr(base == 0, !self.base_aligned(base as int)))
        } else if !self.valid_index(active as int) {
            Err(RcuError::InvalidOffset(active))
        } else {
            let slot = (base + active) as usize;
            if slot == 0 || slot as int % self.slot_align_spec() != 0 {
                Err(RcuError::InvalidGptr(slot == 0, slot as int % self.slot_align_spec() != 0))
            } else {
                Ok(slot)
            }
        }
    }

    /// A layout for `slots` slots of a type of the given size and alignment;
    /// `None` where the shape is degenerate or the segment would not fit in memory.
    pub fn new(slot_size: usize, slot_align: usize, slots: usize) -> (r: Option<RingLayout>)
        ensures
            r.is_some() <==> (slot_size > 0 && slot_align > 0 && slots > 0
                && slot_size % slot_align == 0
                && slots * slot_size + 2 * INDEX_WORD <= usize::MAX),
            r matches Some(l) ==> l.wf() && l.slot_size_spec() == slot_size
                && l.slot_align_spec() == slot_align && l.slots_spec() == slots,
    {
        if slot_size == 0 || slot_align == 0 || slots == 0 || slot_size % slot_align != 0 {
            return None;
        }
        if slots > (usize::MAX - 2 * INDEX_WORD) / slot_size {
            proof {
                lemma_div_bound(usize::MAX - 2 * INDEX_WORD, slot_size as int, slots as int);
            }
            return None;
        }
        proof {
            lemma_mul_within(usize::MAX - 2 * INDEX_WORD, slot_size as int, slots as int);
        }
        Some(RingLayout { slot_size, slot_align, slots })
    }

    pub fn slot_size(&self) -> (r: usize)
        ensures
            r == self.slot_size_spec(),
    {
        self.slot_size
    }

    pub fn slot_align(&self) -> (r: usize)
        ensures
            r == self.slot_align_spec(),
    {
        self.slot_align
    }

    pub fn slots(&self) -> (r: usize)
        ensures
            r == self.slots_spec(),
    {
        self.slots
    }

    /// Byte offset of the index word from the start of the segment.
    pub fn index_offset(&self) -> (r: usize)
        requires
            self.wf(),
        ensures
            r == self.index_offset_spec(),
            r % INDEX_WORD == 0,
            r >= self.values_size(),
    {
        proof {
            lemma_mul_pos(self.slots as int, self.slot_size as int);
        }
        let values = self.slots * self.slot_size;
        let rest = values % INDEX_WORD;
        if rest == 0 {
            values
        } else {
            values + (INDEX_WORD - rest)
        }
    }

    /// Size in bytes of a segment that holds this ring.
    pub fn segment_size(&self) -> (r: usize)
        requires
            self.wf(),
        ensures
            r == self.segment_size_spec(),
    {
        self.index_offset() + INDEX_WORD
    }

    /// The index that a freshly created segment starts with: the first slot.
    pub fn initial_index(&self) -> (r: usize)
        requires
            self.wf(),
        ensures
            r == 0,
            self.valid_index(r as int),
            self.slot_of(r as int) == 0,
    {
        0
    }

    /// The validity pass: checks the base address, the active index and the
    /// address of the active slot, and gives that address.
    pub fn check(&self, base: usize, active: usize) -> (r: Result<usize, RcuError>)
        requires
            self.wf(),
            base as int + self.values_size() <= usize::MAX,
        ensures
            r == self.validate(base, active),
            r is Ok ==> self.valid_index(active as int),
    {
        let misaligned = base % self.slot_align != 0 || base % INDEX_WORD != 0;
        if base == 0 || misaligned {
            return Err(RcuError::InvalidShmemPtr(base == 0, misaligned));
        }
        proof {
            lemma_mul_pos(self.slots as int - 1, self.slot_size as int);
            assert((self.slots as int - 1) * self.slot_size as int <= self.values_size()) by (nonlinear_arith)
                requires
                    self.slot_size > 0,
            ;
        }
        if active % self.slot_size != 0 || active > (self.slots - 1) * self.slot_size {
            return Err(RcuError::InvalidOffset(active));
        }
        let slot = base + active;
        let slot_misaligned = slot % self.slot_align != 0;
        if slot == 0 || slot_misaligned {
            return Err(RcuError::InvalidGptr(slot == 0, slot_misaligned));
        }
        Ok(slot)
    }

    /// The index that the next write publishes:
    /// `(active + slot_size) mod (slots * slot_size)`.
    pub fn next_index(&self, active: usize) -> (r: usize)
        requires
            self.wf(),
            self.valid_index(active as int),
        ensures
            r == self.next_index_spec(active as int),
            self.valid_index(r as int),
            self.slot_of(r as int) == (self.slot_of(active as int) + 1) % self.slots_spec(),
    {
        proof {
            self.lemma_next_slot(active as int);
        }
        let next = active + self.slot_size;
        if next == self.slots * self.slot_size {
            0
        } else {
            next
        }
    }

    /// A valid index names one of the slots.
    pub proof fn lemma_slot_of_valid(self, index: int)
        requires
            self.wf(),
            self.valid_index(index),
        ensures
            0 <= self.slot_of(index) < self.slots_spec(),
            index == self.slot_of(index) * self.slot_size_spec(),
    {
        let s = self.slot_size_spec();
        let n = self.slots_spec();
        let m = index / s;
        assert(index == m * s) by (nonlinear_arith)
            requires
                index % s == 0,
                m == index / s,
                s > 0,
        ;
        assert(0 <= m < n) by (nonlinear_arith)
            requires
                index == m * s,
                0 <= index <= (n - 1) * s,
                s > 0,
        ;
    }

    /// A write moves the active index one slot on, cyclically.
    pub proof fn lemma_next_slot(self, index: int)
        requires
            self.wf(),
            self.valid_index(index),
        ensures
            self.valid_index(self.next_index_spec(index)),
            self.slot_of(self.next_index_spec(index)) == (self.slot_of(index) + 1) % self.slots_spec(),
            index + self.slot_size_spec() <= self.values_size(),
            index + self.slot_size_spec() == self.values_size() ==> self.next_index_spec(index) == 0,
            index + self.slot_size_spec() < self.values_size() ==> self.next_index_spec(index) == index + self.slot_size_spec(),
    {
        let s = self.slot_size_spec();
        let n = self.slots_spec();
        let m = index / s;
        assert(index == m * s) by (nonlinear_arith)
            requires
                index % s == 0,
                m == index / s,
                s > 0,
        ;
        assert(0 <= m < n) by (nonlinear_arith)
            requires
                index == m * s,
                0 <= index <= (n - 1) * s,
                s > 0,
        ;
        if m + 1 < n {
            assert((m + 1) * s < n * s) by (nonlinear_arith)
                requires
                    m + 1 < n,
                    s > 0,
            ;
            assert(index + s == (m + 1) * s) by (nonlinear_arith)
                requires
                    index == m * s,
            ;
            assert((index + s) % (n * s) == index + s) by (nonlinear_arith)
                requires
                    0 <= index + s < n * s,
            ;
            assert((m + 1) * s / s == m + 1) by (nonlinear_arith)
                requires
                    s > 0,
            ;
            assert((m + 1) * s % s == 0) by (nonlinear_arith)
                requires
                    s > 0,
            ;
            assert((m + 1) * s <= (n - 1) * s) by (nonlinear_arith)
                requires
                    m + 1 <= n - 1,
                    s > 0,
            ;
            assert((m + 1) % n == m + 1) by (nonlinear_arith)
                requires
                    0 <= m + 1 < n,
            ;
        } else {
            assert(index + s == n * s) by (nonlinear_arith)
                requires
                    index == m * s,
                    m + 1 == n,
            ;
            assert((n * s) % (n * s) == 0) by (nonlinear_arith)
                requires
                    n * s > 0,
            ;
            assert(n * s > 0) by (nonlinear_arith)
                requires
                    n > 0,
                    s > 0,
            ;
            assert((m + 1) % n == 0) by (nonlinear_arith)
                requires
                    m + 1 == n,
                    n > 0,
            ;
            assert(0int / s == 0 && 0int % s == 0) by (nonlinear_arith)
                requires
                    s > 0,
            ;
        }
    }
}

proof fn lemma_mul_pos(a: int, b: int)
    requires
        a >= 0,
        b >= 0,
    ensures
        a * b >= 0,
        b > 0 ==> a * b >= a,
{
    assert(a * b >= 0) by (nonlinear_arith)
        requires
            a >= 0,
            b >= 0,
    ;
    assert(b > 0 ==> a * b >= a) by (nonlinear_arith)
        requires
            a >= 0,
            b >= 0,
    ;
}

proof fn lemma_div_bound(limit: int, size: int, count: int)
    requires
        limit >= 0,
        size > 0,
        count > limit / size,
    ensures
        count * size > limit,
{
    assert(count * size > limit) by (nonlinear_arith)
        requires
            limit >= 0,
            size > 0,
            count > limit / size,
    ;
}

proof fn lemma_mul_within(limit: int, size: int, count: int)
    requires
        limit >= 0,
        size > 0,
        count >= 0,
        count <= limit / size,
    ensures
        count * size <= limit,
{
    assert(count * size <= limit) by (nonlinear_arith)
        requires
            limit >= 0,
            size > 0,
            count >= 0,
            count <= limit / size,
    ;
}

} // verus!
