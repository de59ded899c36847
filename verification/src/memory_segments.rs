//! Structured bulk writes into memory segments.
//!
//! `write_arg` writes a list of values sequentially from a base address.
//! A nested sequence is not written in place: a fresh segment is
//! allocated, the nested values are written there recursively, and the
//! fresh segment's base address is stored in the current cell, producing
//! a tree of segments that mirrors the nesting.

use vstd::prelude::*;
use crate::errors::{MemoryError, VmError};
use crate::memory::{mem_add_segment, mem_set, mem_set_ok, MemModel, Memory};
use crate::relocatable::{MaybeRelocatable, Relocatable};

verus! {

/// An argument to a bulk write: a scalar cell value or a nested sequence.
pub enum Arg {
    Value(MaybeRelocatable),
    Sequence(Vec<Arg>),
}

/// Whether `x` is representable as an offset or segment index.
pub open spec fn in_usize(x: int) -> bool {
    0 <= x <= usize::MAX
}

/// The error a rejected direct write reports: an unallocated segment is
/// reported as such, anything else is a conflicting rewrite.
pub open spec fn mem_set_err(m: MemModel, a: Relocatable) -> VmError {
    if a.segment_index >= m.len() {
        VmError::Memory(MemoryError::UnallocatedSegment)
    } else {
        VmError::Memory(MemoryError::InconsistentMemory)
    }
}

/// Outcome of writing one argument at `(s, o)`: an error or `None` for
/// success, the memory afterwards (partial effects are kept on failure),
/// and the offset after the written cell.
pub open spec fn write_one_spec(m: MemModel, s: int, o: int, arg: Arg) -> (Option<
    VmError,
>, MemModel, int)
    decreases arg,
{
    if !in_usize(o) {
        (Some(VmError::Memory(MemoryError::OffsetOutOfRange)), m, o)
    } else {
        let a = Relocatable { segment_index: s as usize, offset: o as usize };
        match arg {
            Arg::Value(v) => {
                if mem_set_ok(m, a, v) {
                    (None, mem_set(m, a, v), o + 1)
                } else {
                    (Some(mem_set_err(m, a)), m, o)
                }
            },
            Arg::Sequence(inner) => {
                if m.len() >= usize::MAX {
                    (Some(VmError::Memory(MemoryError::OffsetOutOfRange)), m, o)
                } else {
                    let fresh = Relocatable { segment_index: m.len() as usize, offset: 0 };
                    let nested = write_args_spec(
                        mem_add_segment(m),
                        fresh.segment_index as int,
                        0,
                        inner@,
                    );
                    if nested.0 is Some {
                        (nested.0, nested.1, o)
                    } else {
                        let v = MaybeRelocatable::RelocatableValue(fresh);
                        if mem_set_ok(nested.1, a, v) {
                            (None, mem_set(nested.1, a, v), o + 1)
                        } else {
                            (Some(mem_set_err(nested.1, a)), nested.1, o)
                        }
                    }
                }
            },
        }
    }
}

/// Outcome of writing a list of arguments sequentially from `(s, o)`:
/// the first failure stops the write and keeps all effects so far.
pub open spec fn write_args_spec(m: MemModel, s: int, o: int, args: Seq<Arg>) -> (Option<
    VmError,
>, MemModel, int)
    decreases args,
{
    if args.len() == 0 {
        (None, m, o)
    } else {
        let step = write_one_spec(m, s, o, args[0]);
        if step.0 is Some {
            step
        } else {
            write_args_spec(step.1, s, o + 1, args.drop_first())
        }
    }
}

/// Write `args` sequentially starting at `base`: one cell per scalar, and
/// for each nested sequence a fresh segment holding its values with the
/// fresh base address stored in the current cell. Returns the address one
/// past the last written cell. On failure the writes already performed
/// are kept (no rollback).
#[verifier::loop_isolation(false)]
pub fn write_arg(mem: &mut Memory, base: Relocatable, args: &Vec<Arg>) -> (r: Result<
    Relocatable,
    VmError,
>)
    ensures
        ({
            let out = write_args_spec(
                old(mem)@,
                base.segment_index as int,
                base.offset as int,
                args@,
            );
            final(mem)@ == out.1 && (match out.0 {
                Some(e) => r == Err::<Relocatable, _>(e),
                None => if in_usize(base.offset + args@.len()) {
                    r == Ok::<_, VmError>(Relocatable {
                        segment_index: base.segment_index,
                        offset: (base.offset + args@.len()) as usize,
                    })
                } else {
                    r == Err::<Relocatable, _>(VmError::Memory(MemoryError::OffsetOutOfRange))
                },
            })
        }),
    decreases args@,
{
    let ghost s = base.segment_index as int;
    let ghost out = write_args_spec(mem@, s, base.offset as int, args@);
    proof {
        assert(args@.skip(0) =~= args@);
    }
    let n = args.len();
    if n == 0 {
        return Ok(base);
    }
    let mut i: usize = 0;
    let mut cur: usize = base.offset;
    while i < n
        invariant
            i <= n,
            n == args@.len(),
            cur == base.offset + i,
            out == write_args_spec(mem@, s, cur as int, args@.skip(i as int)),
        decreases n - i,
    {
        proof {
            assert(args@.skip(i as int)[0] == args@[i as int]);
            assert(args@.skip(i as int).drop_first() =~= args@.skip(i as int + 1));
        }
        let ghost step = write_one_spec(mem@, s, cur as int, args@[i as int]);
        match &args[i] {
            Arg::Value(v) => {
                match mem.set(&Relocatable { segment_index: base.segment_index, offset: cur }, v) {
                    Ok(_) => {
                        proof {
                            assert(args@[i as int] == Arg::Value(*v));
                            assert(step.0 is None && step.1 == mem@ && step.2 == cur + 1);
                        }
                    },
                    Err(e) => {
                        proof {
                            assert(args@[i as int] == Arg::Value(*v));
                            assert(step == (Some(e), mem@, cur as int));
                            assert(out == step);
                        }
                        return Err(e);
                    },
                }
            },
            Arg::Sequence(inner) => {
                proof {
                    assert(args@[i as int] == Arg::Sequence(*inner));
                    assert(decreases_to!(args@ => args@[i as int]));
                    assert(decreases_to!(args@[i as int] => *inner));
                    assert(decreases_to!(*inner => inner@));
                    vstd::std_specs::vec::axiom_spec_len(inner);
                }
                let ghost m0 = mem@;
                let fresh = match mem.add_segment() {
                    Ok(f) => f,
                    Err(e) => {
                        proof {
                            assert(m0.len() >= usize::MAX);
                            assert(step == (
                                Some(VmError::Memory(MemoryError::OffsetOutOfRange)),
                                m0,
                                cur as int,
                            ));
                            assert(out == step);
                        }
                        return Err(e);
                    },
                };
                let ghost nested = write_args_spec(mem@, fresh.segment_index as int, 0, inner@);
                match write_arg(mem, fresh, inner) {
                    Ok(_) => {},
                    Err(e) => {
                        proof {
                            assert(in_usize(inner@.len() as int));
                            assert(nested.0 == Some(e));
                            assert(step == (nested.0, nested.1, cur as int));
                            assert(out == step);
                            assert(out.1 == mem@);
                        }
                        return Err(e);
                    },
                }
                match mem.set(
                    &Relocatable { segment_index: base.segment_index, offset: cur },
                    &MaybeRelocatable::RelocatableValue(fresh),
                ) {
                    Ok(_) => {
                        proof {
                            assert(step.0 is None && step.1 == mem@ && step.2 == cur + 1);
                        }
                    },
                    Err(e) => {
                        proof {
                            assert(step == (Some(e), mem@, cur as int));
                            assert(out == step);
                        }
                        return Err(e);
                    },
                }
            },
        }
        proof {
            assert(out == write_args_spec(mem@, s, cur as int + 1, args@.skip(i as int + 1)));
        }
        i = i + 1;
        if cur == usize::MAX {
            proof {
                if i < n {
                    assert(args@.skip(i as int)[0] == args@[i as int]);
                    assert(write_one_spec(mem@, s, cur as int + 1, args@[i as int]) == (
                        Some(VmError::Memory(MemoryError::OffsetOutOfRange)),
                        mem@,
                        cur as int + 1,
                    ));
                    assert(out == (
                        Some(VmError::Memory(MemoryError::OffsetOutOfRange)),
                        mem@,
                        cur as int + 1,
                    ));
                } else {
                    assert(args@.skip(i as int) =~= Seq::<Arg>::empty());
                    assert(out == (None::<VmError>, mem@, cur as int + 1));
                    assert(!in_usize(base.offset + args@.len()));
                }
            }
            return Err(VmError::Memory(MemoryError::OffsetOutOfRange));
        }
        cur = cur + 1;
    }
    proof {
        assert(args@.skip(i as int) =~= Seq::<Arg>::empty());
    }
    Ok(Relocatable { segment_index: base.segment_index, offset: cur })
}

} // verus!
