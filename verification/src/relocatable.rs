//! The address model: segmented addresses and tagged cell values.
//!
//! An address is a pair of a segment index and an offset. Cell values are
//! either field elements or addresses. Address arithmetic shifts offsets
//! within a segment; subtraction across segments is an error.

use vstd::prelude::*;
use crate::errors::{MemoryError, VmError};
use crate::felt::{Felt, prime};

verus! {

/// An address: a segment index and an offset within that segment.
#[derive(Clone, Copy, Debug, PartialEq, Eq, Hash, Structural)]
pub struct Relocatable {
    pub segment_index: usize,
    pub offset: usize,
}

/// A cell value: a field element or an address.
#[derive(Clone, Copy, Debug, PartialEq, Eq, Structural)]
pub enum MaybeRelocatable {
    Int(Felt),
    RelocatableValue(Relocatable),
}

/// The total order on addresses: by segment first, then by offset.
pub open spec fn addr_lt(a: Relocatable, b: Relocatable) -> bool {
    a.segment_index < b.segment_index
        || (a.segment_index == b.segment_index && a.offset < b.offset)
}

impl Relocatable {
    pub fn new(segment_index: usize, offset: usize) -> (r: Relocatable)
        ensures
            r == (Relocatable { segment_index, offset }),
    {
        Relocatable { segment_index, offset }
    }

    /// Strict comparison in the total address order.
    pub fn lt(&self, other: &Relocatable) -> (r: bool)
        ensures
            r == addr_lt(*self, *other),
    {
        self.segment_index < other.segment_index
            || (self.segment_index == other.segment_index && self.offset < other.offset)
    }

    /// Shift the offset by a signed amount; the segment is unchanged.
    /// Fails when the shifted offset leaves the representable range.
    pub fn add_offset(&self, delta: i128) -> (r: Result<Relocatable, VmError>)
        ensures
            0 <= self.offset + delta <= usize::MAX ==> r == Ok::<_, VmError>(Relocatable {
                segment_index: self.segment_index,
                offset: (self.offset + delta) as usize,
            }),
            !(0 <= self.offset + delta <= usize::MAX) ==> r == Err::<Relocatable, _>(
                VmError::Memory(MemoryError::OffsetOutOfRange),
            ),
    {
        if delta >= 0 {
            if delta <= (usize::MAX - self.offset) as i128 {
                Ok(Relocatable {
                    segment_index: self.segment_index,
                    offset: self.offset + (delta as usize),
                })
            } else {
                Err(VmError::Memory(MemoryError::OffsetOutOfRange))
            }
        } else {
            if delta + (self.offset as i128) >= 0 {
                Ok(Relocatable {
                    segment_index: self.segment_index,
                    offset: self.offset - ((-delta) as usize),
                })
            } else {
                Err(VmError::Memory(MemoryError::OffsetOutOfRange))
            }
        }
    }

    /// Offset difference of two addresses in the same segment; addresses
    /// in different segments are incomparable.
    pub fn sub_addr(&self, other: &Relocatable) -> (r: Result<i128, VmError>)
        ensures
            self.segment_index == other.segment_index ==> r == Ok::<_, VmError>(
                (self.offset - other.offset) as i128,
            ),
            self.segment_index != other.segment_index ==> r == Err::<i128, _>(
                VmError::Memory(MemoryError::DifferentSegments),
            ),
    {
        if self.segment_index == other.segment_index {
            Ok(self.offset as i128 - other.offset as i128)
        } else {
            Err(VmError::Memory(MemoryError::DifferentSegments))
        }
    }
}

impl MaybeRelocatable {
    /// Wrap a field element built from a machine integer.
    pub fn from_u64(x: u64) -> (r: MaybeRelocatable)
        ensures
            r matches MaybeRelocatable::Int(f) && f.val() == x,
    {
        MaybeRelocatable::Int(Felt::from_u64(x))
    }

    /// Wrap an address.
    pub fn from_addr(a: Relocatable) -> (r: MaybeRelocatable)
        ensures
            r == MaybeRelocatable::RelocatableValue(a),
    {
        MaybeRelocatable::RelocatableValue(a)
    }

    /// Addition of cell values:
    /// - field element + field element reduces modulo the prime;
    /// - address + field element shifts the offset (the field element must
    ///   fit the offset range);
    /// - address + address is rejected.
    pub fn add(&self, other: &MaybeRelocatable) -> (r: Result<MaybeRelocatable, VmError>)
        ensures
            (match (self, other) {
                (MaybeRelocatable::Int(a), MaybeRelocatable::Int(b)) => r matches Ok(
                    MaybeRelocatable::Int(c),
                ) && c.val() == (a.val() + b.val()) % prime(),
                (MaybeRelocatable::RelocatableValue(a), MaybeRelocatable::Int(b)) => add_addr_felt_ok(
                    *a,
                    *b,
                    r,
                ),
                (MaybeRelocatable::Int(a), MaybeRelocatable::RelocatableValue(b)) => add_addr_felt_ok(
                    *b,
                    *a,
                    r,
                ),
                (
                    MaybeRelocatable::RelocatableValue(_),
                    MaybeRelocatable::RelocatableValue(_),
                ) => r == Err::<MaybeRelocatable, _>(VmError::Memory(MemoryError::ExpectedInteger)),
            }),
    {
        match (self, other) {
            (MaybeRelocatable::Int(a), MaybeRelocatable::Int(b)) => Ok(MaybeRelocatable::Int(
                a.add(*b),
            )),
            (MaybeRelocatable::RelocatableValue(a), MaybeRelocatable::Int(b)) => add_addr_felt(
                a,
                b,
            ),
            (MaybeRelocatable::Int(a), MaybeRelocatable::RelocatableValue(b)) => add_addr_felt(
                b,
                a,
            ),
            (MaybeRelocatable::RelocatableValue(_), MaybeRelocatable::RelocatableValue(_)) => Err(
                VmError::Memory(MemoryError::ExpectedInteger),
            ),
        }
    }
}

/// What shifting an address by a field element returns: the shifted address
/// when the sum stays in the offset range, an offset error otherwise.
pub open spec fn add_addr_felt_ok(
    a: Relocatable,
    b: Felt,
    r: Result<MaybeRelocatable, VmError>,
) -> bool {
    if a.offset + b.val() <= usize::MAX {
        r == Ok::<_, VmError>(MaybeRelocatable::RelocatableValue(Relocatable {
            segment_index: a.segment_index,
            offset: (a.offset + b.val()) as usize,
        }))
    } else {
        r == Err::<MaybeRelocatable, _>(VmError::Memory(MemoryError::OffsetOutOfRange))
    }
}

fn add_addr_felt(a: &Relocatable, b: &Felt) -> (r: Result<MaybeRelocatable, VmError>)
    ensures
        add_addr_felt_ok(*a, *b, r),
{
    match b.to_usize() {
        Some(d) => {
            if d <= usize::MAX - a.offset {
                Ok(MaybeRelocatable::RelocatableValue(Relocatable {
                    segment_index: a.segment_index,
                    offset: a.offset + d,
                }))
            } else {
                Err(VmError::Memory(MemoryError::OffsetOutOfRange))
            }
        },
        None => Err(VmError::Memory(MemoryError::OffsetOutOfRange)),
    }
}

/// Round trip of address subtraction and addition: for two addresses in one
/// segment, shifting `a` by the difference `b - a` lands exactly on `b`.
pub proof fn lemma_sub_then_add(a: Relocatable, b: Relocatable)
    requires
        a.segment_index == b.segment_index,
    ensures
        0 <= a.offset + (b.offset - a.offset) <= usize::MAX,
        (Relocatable {
            segment_index: a.segment_index,
            offset: (a.offset + (b.offset - a.offset)) as usize,
        }) == b,
{
}

} // verus!
