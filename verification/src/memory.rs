//! The segmented memory store.
//!
//! Memory maps addresses to optional cell values, partitioned by segment.
//! A cell may be written at most once, except that rewriting the identical
//! value succeeds; a conflicting rewrite is an error. Segments are
//! allocated in order and their count only grows.

use vstd::prelude::*;
use crate::errors::{MemoryError, VmError};
use crate::relocatable::{MaybeRelocatable, Relocatable};

verus! {

/// The mathematical model of memory: one sequence of optional cells per
/// segment.
pub type MemModel = Seq<Seq<Option<MaybeRelocatable>>>;

/// The cell at `(s, o)`, with every out-of-range cell read as unset.
pub open spec fn mem_cell(m: MemModel, s: int, o: int) -> Option<MaybeRelocatable> {
    if 0 <= s < m.len() && 0 <= o < m[s].len() {
        m[s][o]
    } else {
        None
    }
}

/// Whether a write of `v` at `a` is accepted: the segment must exist and
/// the cell must be unset or already hold `v`.
pub open spec fn mem_set_ok(m: MemModel, a: Relocatable, v: MaybeRelocatable) -> bool {
    a.segment_index < m.len() && (mem_cell(m, a.segment_index as int, a.offset as int) is None
        || mem_cell(m, a.segment_index as int, a.offset as int) == Some(v))
}

/// The model after an accepted write: the segment is padded with unset
/// cells up to the written offset, then the cell is set.
pub open spec fn mem_set(m: MemModel, a: Relocatable, v: MaybeRelocatable) -> MemModel {
    let s = a.segment_index as int;
    let o = a.offset as int;
    let row = m[s];
    let padded = if o < row.len() {
        row
    } else {
        row + Seq::new((o + 1 - row.len()) as nat, |i: int| None)
    };
    m.update(s, padded.update(o, Some(v)))
}

/// The model after allocating one segment.
pub open spec fn mem_add_segment(m: MemModel) -> MemModel {
    m.push(Seq::empty())
}

/// The segmented memory store.
pub struct Memory {
    segments: Vec<Vec<Option<MaybeRelocatable>>>,
}

impl Memory {
    /// The model of this memory.
    pub closed spec fn view(&self) -> MemModel {
        Seq::new(self.segments@.len(), |i: int| self.segments@[i]@)
    }

    /// A memory with no segments.
    pub fn new() -> (r: Memory)
        ensures
            r@ == Seq::<Seq<Option<MaybeRelocatable>>>::empty(),
    {
        let r = Memory { segments: Vec::new() };
        proof {
            assert(r@ =~= Seq::<Seq<Option<MaybeRelocatable>>>::empty());
        }
        r
    }

    /// The number of allocated segments.
    pub fn num_segments(&self) -> (r: usize)
        ensures
            r == self@.len(),
    {
        self.segments.len()
    }

    /// Allocate a new segment and return its base address.
    pub fn add_segment(&mut self) -> (r: Result<Relocatable, VmError>)
        ensures
            old(self)@.len() < usize::MAX ==> r == Ok::<_, VmError>(Relocatable {
                segment_index: old(self)@.len() as usize,
                offset: 0,
            }) && final(self)@ == mem_add_segment(old(self)@),
            old(self)@.len() >= usize::MAX ==> r == Err::<Relocatable, _>(VmError::Memory(
                MemoryError::OffsetOutOfRange,
            )) && final(self)@ == old(self)@,
    {
        let index = self.segments.len();
        if index == usize::MAX {
            return Err(VmError::Memory(MemoryError::OffsetOutOfRange));
        }
        self.segments.push(Vec::new());
        proof {
            assert(self@ =~= mem_add_segment(old(self)@));
        }
        Ok(Relocatable { segment_index: index, offset: 0 })
    }

    /// Read the cell at `a`; unallocated or unset cells read as `None`.
    pub fn get(&self, a: &Relocatable) -> (r: Option<MaybeRelocatable>)
        ensures
            r == mem_cell(self@, a.segment_index as int, a.offset as int),
    {
        if a.segment_index < self.segments.len() {
            let row: &Vec<Option<MaybeRelocatable>> = &self.segments[a.segment_index];
            if a.offset < row.len() {
                row[a.offset]
            } else {
                None
            }
        } else {
            None
        }
    }

    /// Write `v` at `a`. The write succeeds exactly when the segment is
    /// allocated and the cell is unset or already holds `v`; a conflicting
    /// rewrite fails and leaves memory unchanged.
    pub fn set(&mut self, a: &Relocatable, v: &MaybeRelocatable) -> (r: Result<(), VmError>)
        ensures
            mem_set_ok(old(self)@, *a, *v) ==> r == Ok::<(), VmError>(()) && final(self)@
                == mem_set(old(self)@, *a, *v),
            !mem_set_ok(old(self)@, *a, *v) ==> final(self)@ == old(self)@ && (if a.segment_index
                >= old(self)@.len() {
                r == Err::<(), _>(VmError::Memory(MemoryError::UnallocatedSegment))
            } else {
                r == Err::<(), _>(VmError::Memory(MemoryError::InconsistentMemory))
            }),
    {
        if a.segment_index >= self.segments.len() {
            return Err(VmError::Memory(MemoryError::UnallocatedSegment));
        }
        let ghost m0 = self@;
        let row: &mut Vec<Option<MaybeRelocatable>> = &mut self.segments[a.segment_index];
        let ghost row0 = row@;
        if a.offset < row.len() {
            match row[a.offset] {
                Some(existing) => {
                    if existing == *v {
                        proof {
                            assert(self@ =~= m0);
                            assert(mem_set(m0, *a, *v) =~~= m0);
                        }
                        Ok(())
                    } else {
                        proof {
                            assert(self@ =~= m0);
                        }
                        Err(VmError::Memory(MemoryError::InconsistentMemory))
                    }
                },
                None => {
                    row.set(a.offset, Some(*v));
                    proof {
                        assert(self@ =~= mem_set(m0, *a, *v));
                    }
                    Ok(())
                },
            }
        } else {
            while row.len() < a.offset
                invariant
                    row0.len() <= row@.len() <= a.offset,
                    row@ == row0 + Seq::new((row@.len() - row0.len()) as nat, |i: int| None::<
                        MaybeRelocatable,
                    >),
                decreases a.offset - row@.len(),
            {
                row.push(None);
                proof {
                    assert(row@ =~= row0 + Seq::new((row@.len() - row0.len()) as nat, |i: int| None::<
                        MaybeRelocatable,
                    >));
                }
            }
            row.push(Some(*v));
            proof {
                assert(self@ =~~= mem_set(m0, *a, *v));
            }
            Ok(())
        }
    }
}

/// The write-once memory laws: after an accepted write of `v` at `a`,
/// reading `a` returns `v`; rewriting the same `v` is accepted; writing a
/// different value at `a` is rejected.
pub proof fn lemma_write_then_read(m: MemModel, a: Relocatable, v: MaybeRelocatable)
    requires
        mem_set_ok(m, a, v),
    ensures
        mem_cell(mem_set(m, a, v), a.segment_index as int, a.offset as int) == Some(v),
        mem_set_ok(mem_set(m, a, v), a, v),
        forall|w: MaybeRelocatable| w != v ==> !mem_set_ok(mem_set(m, a, v), a, w),
{
}

/// Two successive segment allocations return base addresses with
/// strictly increasing, distinct segment indices, both at offset zero.
pub proof fn lemma_add_segments_increasing(m: MemModel)
    requires
        m.len() + 1 < usize::MAX,
    ensures
        ({
            let first = Relocatable { segment_index: m.len() as usize, offset: 0 };
            let second = Relocatable {
                segment_index: mem_add_segment(m).len() as usize,
                offset: 0,
            };
            first.segment_index < second.segment_index && first.offset == 0 && second.offset == 0
        }),
{
}

/// A write touches only its own cell: every other address reads the same
/// value before and after.
pub proof fn lemma_set_frame(m: MemModel, a: Relocatable, v: MaybeRelocatable, s: int, o: int)
    requires
        mem_set_ok(m, a, v),
        !(s == a.segment_index && o == a.offset),
    ensures
        mem_cell(mem_set(m, a, v), s, o) == mem_cell(m, s, o),
{
}

} // verus!
