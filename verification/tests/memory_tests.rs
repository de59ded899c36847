use cairo_rs_py::errors::{MemoryError, VmError};
use cairo_rs_py::felt::{Felt, PRIME_HI, PRIME_LO};
use cairo_rs_py::memory::Memory;
use cairo_rs_py::memory_segments::{write_arg, Arg};
use cairo_rs_py::relocatable::{MaybeRelocatable, Relocatable};

fn addr(segment_index: usize, offset: usize) -> Relocatable {
    Relocatable { segment_index, offset }
}

#[test]
fn write_then_read_returns_value() {
    let mut mem = Memory::new();
    let base = mem.add_segment().unwrap();
    let v = MaybeRelocatable::from_u64(17);
    assert_eq!(mem.set(&base, &v), Ok(()));
    assert_eq!(mem.get(&base), Some(v));
    // Rewriting the identical value is accepted.
    assert_eq!(mem.set(&base, &v), Ok(()));
    assert_eq!(mem.get(&base), Some(v));
    // A conflicting rewrite is rejected and changes nothing.
    let w = MaybeRelocatable::from_u64(18);
    assert_eq!(
        mem.set(&base, &w),
        Err(VmError::Memory(MemoryError::InconsistentMemory))
    );
    assert_eq!(mem.get(&base), Some(v));
}

#[test]
fn write_to_unallocated_segment_fails() {
    let mut mem = Memory::new();
    assert_eq!(
        mem.set(&addr(0, 0), &MaybeRelocatable::from_u64(1)),
        Err(VmError::Memory(MemoryError::UnallocatedSegment))
    );
}

#[test]
fn sparse_write_leaves_gap_unset() {
    let mut mem = Memory::new();
    mem.add_segment().unwrap();
    assert_eq!(mem.set(&addr(0, 3), &MaybeRelocatable::from_u64(7)), Ok(()));
    assert_eq!(mem.get(&addr(0, 0)), None);
    assert_eq!(mem.get(&addr(0, 3)), Some(MaybeRelocatable::from_u64(7)));
}

#[test]
fn sub_then_add_round_trip() {
    // For two addresses in one segment, a + (b - a) == b.
    let a = addr(1, 5);
    let b = addr(1, 3);
    let d = b.sub_addr(&a).unwrap();
    assert_eq!(d, -2);
    assert_eq!(a.add_offset(d), Ok(b));
    let d2 = a.sub_addr(&b).unwrap();
    assert_eq!(d2, 2);
    assert_eq!(b.add_offset(d2), Ok(a));
}

#[test]
fn sub_across_segments_fails() {
    let a = addr(1, 5);
    let b = addr(2, 5);
    assert_eq!(
        a.sub_addr(&b),
        Err(VmError::Memory(MemoryError::DifferentSegments))
    );
}

#[test]
fn address_order_is_segment_then_offset() {
    assert!(addr(1, 9).lt(&addr(2, 0)));
    assert!(addr(1, 3).lt(&addr(1, 4)));
    assert!(!addr(2, 0).lt(&addr(1, 9)));
    assert!(!addr(1, 4).lt(&addr(1, 4)));
}

#[test]
fn add_offset_out_of_range_fails() {
    assert_eq!(
        addr(0, 1).add_offset(-2),
        Err(VmError::Memory(MemoryError::OffsetOutOfRange))
    );
    assert_eq!(
        addr(0, usize::MAX).add_offset(1),
        Err(VmError::Memory(MemoryError::OffsetOutOfRange))
    );
}

#[test]
fn two_adds_return_increasing_segments() {
    let mut mem = Memory::new();
    let first = mem.add_segment().unwrap();
    let second = mem.add_segment().unwrap();
    assert!(first.segment_index < second.segment_index);
    assert_ne!(first.segment_index, second.segment_index);
    assert_eq!(first.offset, 0);
    assert_eq!(second.offset, 0);
}

#[test]
fn write_arg_writes_scalars_in_order() {
    let mut mem = Memory::new();
    let base = mem.add_segment().unwrap();
    let args = vec![
        Arg::Value(MaybeRelocatable::from_u64(10)),
        Arg::Value(MaybeRelocatable::from_u64(11)),
    ];
    let end = write_arg(&mut mem, base, &args).unwrap();
    assert_eq!(end, addr(0, 2));
    assert_eq!(mem.get(&addr(0, 0)), Some(MaybeRelocatable::from_u64(10)));
    assert_eq!(mem.get(&addr(0, 1)), Some(MaybeRelocatable::from_u64(11)));
}

#[test]
fn write_arg_nested_sequence_allocates_segment() {
    // write_arg(base, [1, 2, [3, 4]]) writes 1 and 2 at base and base+1,
    // allocates a fresh segment S, writes 3 and 4 at (S,0) and (S,1),
    // stores the address (S,0) at base+2, and returns base+3.
    let mut mem = Memory::new();
    let base = mem.add_segment().unwrap();
    let args = vec![
        Arg::Value(MaybeRelocatable::from_u64(1)),
        Arg::Value(MaybeRelocatable::from_u64(2)),
        Arg::Sequence(vec![
            Arg::Value(MaybeRelocatable::from_u64(3)),
            Arg::Value(MaybeRelocatable::from_u64(4)),
        ]),
    ];
    let end = write_arg(&mut mem, base, &args).unwrap();
    assert_eq!(end, addr(0, 3));
    assert_eq!(mem.get(&addr(0, 0)), Some(MaybeRelocatable::from_u64(1)));
    assert_eq!(mem.get(&addr(0, 1)), Some(MaybeRelocatable::from_u64(2)));
    let s = addr(1, 0);
    assert_eq!(mem.get(&addr(0, 2)), Some(MaybeRelocatable::from_addr(s)));
    assert_eq!(mem.get(&addr(1, 0)), Some(MaybeRelocatable::from_u64(3)));
    assert_eq!(mem.get(&addr(1, 1)), Some(MaybeRelocatable::from_u64(4)));
    assert_eq!(mem.num_segments(), 2);
}

#[test]
fn write_arg_conflict_keeps_partial_effects() {
    let mut mem = Memory::new();
    let base = mem.add_segment().unwrap();
    mem.set(&addr(0, 1), &MaybeRelocatable::from_u64(99)).unwrap();
    let args = vec![
        Arg::Value(MaybeRelocatable::from_u64(1)),
        Arg::Value(MaybeRelocatable::from_u64(2)),
    ];
    assert_eq!(
        write_arg(&mut mem, base, &args),
        Err(VmError::Memory(MemoryError::InconsistentMemory))
    );
    // The first write stays; there is no rollback.
    assert_eq!(mem.get(&addr(0, 0)), Some(MaybeRelocatable::from_u64(1)));
    assert_eq!(mem.get(&addr(0, 1)), Some(MaybeRelocatable::from_u64(99)));
}

#[test]
fn felt_addition_reduces_modulo_prime() {
    // (P - 1) + 2 == 1 mod P.
    let p_minus_1 = Felt::from_limbs(PRIME_HI, PRIME_LO - 1).unwrap();
    let two = Felt::from_u64(2);
    assert_eq!(p_minus_1.add(two), Felt::from_u64(1));
    // Small sums are plain sums.
    assert_eq!(
        Felt::from_u64(17).add(Felt::from_u64(25)),
        Felt::from_u64(42)
    );
}

#[test]
fn felt_from_limbs_rejects_prime() {
    assert_eq!(Felt::from_limbs(PRIME_HI, PRIME_LO), None);
    assert!(Felt::from_limbs(PRIME_HI, PRIME_LO - 1).is_some());
}

#[test]
fn cell_value_addition_rules() {
    // address + field element shifts the offset.
    let a = MaybeRelocatable::from_addr(addr(1, 5));
    let three = MaybeRelocatable::from_u64(3);
    assert_eq!(a.add(&three), Ok(MaybeRelocatable::from_addr(addr(1, 8))));
    assert_eq!(three.add(&a), Ok(MaybeRelocatable::from_addr(addr(1, 8))));
    // field element + field element reduces modulo the prime.
    assert_eq!(
        MaybeRelocatable::from_u64(5).add(&MaybeRelocatable::from_u64(6)),
        Ok(MaybeRelocatable::from_u64(11))
    );
    // address + address is rejected.
    assert_eq!(
        a.add(&a),
        Err(VmError::Memory(MemoryError::ExpectedInteger))
    );
}

#[test]
fn cairo_run_add_segment() {
    // The hint in the add-segment program allocates a fresh segment via
    // the bridge and hands its base to the program.
    let mut mem = Memory::new();
    for _ in 0..2 {
        mem.add_segment().unwrap();
    }
    let fresh = mem.add_segment().unwrap();
    assert_eq!(fresh, addr(2, 0));
    mem.set(&addr(1, 0), &MaybeRelocatable::from_addr(fresh)).unwrap();
    mem.set(&fresh, &MaybeRelocatable::from_u64(42)).unwrap();
    assert_eq!(
        mem.get(&addr(1, 0)),
        Some(MaybeRelocatable::from_addr(addr(2, 0)))
    );
    assert_eq!(mem.get(&fresh), Some(MaybeRelocatable::from_u64(42)));
}

#[test]
fn cairo_run_assert_not_zero() {
    // The assert-not-zero program reads a cell and requires a non-zero
    // field element in it.
    let mut mem = Memory::new();
    mem.add_segment().unwrap();
    mem.set(&addr(0, 0), &MaybeRelocatable::from_u64(5)).unwrap();
    match mem.get(&addr(0, 0)) {
        Some(MaybeRelocatable::Int(f)) => assert_ne!(f, Felt::zero()),
        other => panic!("expected a field element, found {:?}", other),
    }
}
