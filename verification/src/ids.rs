//! The identifier resolver: symbolic program names to concrete addresses.
//!
//! Each name carries a reference descriptor: a base register (`ap` or
//! `fp`) or an immediate constant, a signed offset, a dereference flag,
//! and an optional chain of struct fields resolved against a known
//! layout. Resolution computes the target address; reads and writes go
//! through it to memory.

use vstd::prelude::*;
use crate::errors::{IdentifierError, MemoryError, VmError};
use crate::felt::Felt;
use crate::memory::{mem_cell, mem_set, mem_set_ok, MemModel, Memory};
use crate::memory_segments::{in_usize, mem_set_err};
use crate::relocatable::{MaybeRelocatable, Relocatable};

verus! {

/// The base from which a reference's address is computed.
#[derive(Clone, Copy, Debug, PartialEq, Eq, Structural)]
pub enum RefBase {
    Ap,
    Fp,
    Immediate(Felt),
}

/// A reference descriptor recorded for one identifier at one program
/// location.
pub struct HintReference {
    pub base: RefBase,
    pub offset: i128,
    pub dereference: bool,
    pub path: Vec<String>,
}

/// The first value bound to `k` in an association list, if any.
pub open spec fn assoc_find<V>(s: Seq<(String, V)>, k: Seq<char>) -> Option<V>
    decreases s.len(),
{
    if s.len() == 0 {
        None
    } else if s[0].0@ == k {
        Some(s[0].1)
    } else {
        assoc_find(s.drop_first(), k)
    }
}

/// Index of the first binding of `name`, with its lookup meaning.
pub fn assoc_index<V>(s: &Vec<(String, V)>, name: &String) -> (r: Option<usize>)
    ensures
        (match r {
            Some(i) => i < s@.len() && s@[i as int].0@ == name@ && assoc_find(s@, name@) == Some(
                s@[i as int].1,
            ),
            None => assoc_find(s@, name@) is None,
        }),
{
    let mut i: usize = 0;
    proof {
        assert(s@.skip(0) =~= s@);
    }
    while i < s.len()
        invariant
            i <= s@.len(),
            assoc_find(s@, name@) == assoc_find(s@.skip(i as int), name@),
        decreases s@.len() - i,
    {
        proof {
            assert(s@.skip(i as int)[0] == s@[i as int]);
            assert(s@.skip(i as int).drop_first() =~= s@.skip(i as int + 1));
        }
        if s[i].0 == *name {
            return Some(i);
        }
        i = i + 1;
    }
    proof {
        assert(s@.skip(i as int) =~= Seq::<(String, V)>::empty());
    }
    None
}

/// The address reached by following a field chain from `a` against the
/// struct layout: each field shifts the offset by the field's slot.
pub open spec fn apply_path_spec(
    layout: Seq<(String, usize)>,
    a: Relocatable,
    path: Seq<String>,
) -> Result<Relocatable, VmError>
    decreases path.len(),
{
    if path.len() == 0 {
        Ok(a)
    } else {
        match assoc_find(layout, path[0]@) {
            None => Err(VmError::Identifier(IdentifierError::UnknownField)),
            Some(off) => if a.offset + off <= usize::MAX {
                apply_path_spec(
                    layout,
                    Relocatable { segment_index: a.segment_index, offset: (a.offset + off) as usize },
                    path.drop_first(),
                )
            } else {
                Err(VmError::Memory(MemoryError::OffsetOutOfRange))
            },
        }
    }
}

/// The address a reference denotes, or the error resolution reports:
/// unknown names, immediate bases, out-of-range offsets, dereferences of
/// unset or non-address cells, and unknown fields are all rejected.
pub open spec fn resolve_spec(
    refs: Seq<(String, HintReference)>,
    layout: Seq<(String, usize)>,
    ap: Relocatable,
    fp: Relocatable,
    m: MemModel,
    name: Seq<char>,
) -> Result<Relocatable, VmError> {
    match assoc_find(refs, name) {
        None => Err(VmError::Identifier(IdentifierError::UnresolvedReference)),
        Some(hr) => match hr.base {
            RefBase::Immediate(_) => Err(
                VmError::Identifier(IdentifierError::CannotAssignToExpression),
            ),
            _ => {
                let reg = if hr.base is Ap {
                    ap
                } else {
                    fp
                };
                if !in_usize(reg.offset + hr.offset) {
                    Err(VmError::Memory(MemoryError::OffsetOutOfRange))
                } else {
                    let a = Relocatable {
                        segment_index: reg.segment_index,
                        offset: (reg.offset + hr.offset) as usize,
                    };
                    if hr.dereference {
                        match mem_cell(m, a.segment_index as int, a.offset as int) {
                            None => Err(VmError::Memory(MemoryError::UnknownMemoryCell)),
                            Some(MaybeRelocatable::Int(_)) => Err(
                                VmError::Memory(MemoryError::ExpectedRelocatable),
                            ),
                            Some(MaybeRelocatable::RelocatableValue(t)) => apply_path_spec(
                                layout,
                                t,
                                hr.path@,
                            ),
                        }
                    } else {
                        apply_path_spec(layout, a, hr.path@)
                    }
                }
            },
        },
    }
}

/// The identifier resolver for one hint invocation: the hint record's
/// reference table, the struct layout, and the register values.
pub struct Ids {
    pub references: Vec<(String, HintReference)>,
    pub layout: Vec<(String, usize)>,
    pub ap: Relocatable,
    pub fp: Relocatable,
}

impl Ids {
    pub fn new(
        references: Vec<(String, HintReference)>,
        layout: Vec<(String, usize)>,
        ap: Relocatable,
        fp: Relocatable,
    ) -> (r: Ids)
        ensures
            r.references@ == references@,
            r.layout@ == layout@,
            r.ap == ap,
            r.fp == fp,
    {
        Ids { references, layout, ap, fp }
    }

    /// Follow a reference's field chain from `a`.
    fn apply_path(&self, a: Relocatable, path: &Vec<String>) -> (r: Result<Relocatable, VmError>)
        ensures
            r == apply_path_spec(self.layout@, a, path@),
    {
        let mut cur = a;
        let mut i: usize = 0;
        proof {
            assert(path@.skip(0) =~= path@);
        }
        while i < path.len()
            invariant
                i <= path@.len(),
                apply_path_spec(self.layout@, a, path@) == apply_path_spec(
                    self.layout@,
                    cur,
                    path@.skip(i as int),
                ),
            decreases path@.len() - i,
        {
            proof {
                assert(path@.skip(i as int)[0] == path@[i as int]);
                assert(path@.skip(i as int).drop_first() =~= path@.skip(i as int + 1));
            }
            match assoc_index(&self.layout, &path[i]) {
                None => {
                    return Err(VmError::Identifier(IdentifierError::UnknownField));
                },
                Some(j) => {
                    let off = self.layout[j].1;
                    if off <= usize::MAX - cur.offset {
                        cur = Relocatable {
                            segment_index: cur.segment_index,
                            offset: cur.offset + off,
                        };
                    } else {
                        return Err(VmError::Memory(MemoryError::OffsetOutOfRange));
                    }
                },
            }
            i = i + 1;
        }
        proof {
            assert(path@.skip(i as int) =~= Seq::<String>::empty());
        }
        Ok(cur)
    }

    /// Resolve a name to the address its reference denotes.
    pub fn resolve(&self, name: &String, memory: &Memory) -> (r: Result<Relocatable, VmError>)
        ensures
            r == resolve_spec(self.references@, self.layout@, self.ap, self.fp, memory@, name@),
    {
        let i = match assoc_index(&self.references, name) {
            None => {
                return Err(VmError::Identifier(IdentifierError::UnresolvedReference));
            },
            Some(i) => i,
        };
        let hr = &self.references[i].1;
        let reg = match hr.base {
            RefBase::Immediate(_) => {
                return Err(VmError::Identifier(IdentifierError::CannotAssignToExpression));
            },
            RefBase::Ap => self.ap,
            RefBase::Fp => self.fp,
        };
        let a = match reg.add_offset(hr.offset) {
            Ok(a) => a,
            Err(e) => {
                return Err(e);
            },
        };
        let target = if hr.dereference {
            match memory.get(&a) {
                None => {
                    return Err(VmError::Memory(MemoryError::UnknownMemoryCell));
                },
                Some(MaybeRelocatable::Int(_)) => {
                    return Err(VmError::Memory(MemoryError::ExpectedRelocatable));
                },
                Some(MaybeRelocatable::RelocatableValue(t)) => t,
            }
        } else {
            a
        };
        self.apply_path(target, &hr.path)
    }

    /// Read the value a name denotes: an immediate reference yields its
    /// constant, any other resolves to an address whose cell is read;
    /// an unset cell is a memory error.
    pub fn get(&self, name: &String, memory: &Memory) -> (r: Result<MaybeRelocatable, VmError>)
        ensures
            (match assoc_find(self.references@, name@) {
                Some(hr) => (match hr.base {
                    RefBase::Immediate(f) => r == Ok::<_, VmError>(MaybeRelocatable::Int(f)),
                    _ => (match resolve_spec(
                        self.references@,
                        self.layout@,
                        self.ap,
                        self.fp,
                        memory@,
                        name@,
                    ) {
                        Err(e) => r == Err::<MaybeRelocatable, _>(e),
                        Ok(a) => (match mem_cell(
                            memory@,
                            a.segment_index as int,
                            a.offset as int,
                        ) {
                            None => r == Err::<MaybeRelocatable, _>(
                                VmError::Memory(MemoryError::UnknownMemoryCell),
                            ),
                            Some(v) => r == Ok::<_, VmError>(v),
                        }),
                    }),
                }),
                None => r == Err::<MaybeRelocatable, _>(
                    VmError::Identifier(IdentifierError::UnresolvedReference),
                ),
            }),
    {
        let i = match assoc_index(&self.references, name) {
            None => {
                return Err(VmError::Identifier(IdentifierError::UnresolvedReference));
            },
            Some(i) => i,
        };
        if let RefBase::Immediate(f) = self.references[i].1.base {
            return Ok(MaybeRelocatable::Int(f));
        }
        let a = match self.resolve(name, memory) {
            Ok(a) => a,
            Err(e) => {
                return Err(e);
            },
        };
        match memory.get(&a) {
            None => Err(VmError::Memory(MemoryError::UnknownMemoryCell)),
            Some(v) => Ok(v),
        }
    }

    /// Write the value a name denotes: the reference must resolve to a
    /// concrete address (an immediate cannot be assigned), and the write
    /// obeys the write-once memory law.
    pub fn set(&self, name: &String, value: &MaybeRelocatable, memory: &mut Memory) -> (r: Result<
        (),
        VmError,
    >)
        ensures
            (match resolve_spec(
                self.references@,
                self.layout@,
                self.ap,
                self.fp,
                old(memory)@,
                name@,
            ) {
                Err(e) => r == Err::<(), _>(e) && final(memory)@ == old(memory)@,
                Ok(a) => if mem_set_ok(old(memory)@, a, *value) {
                    r == Ok::<(), VmError>(()) && final(memory)@ == mem_set(
                        old(memory)@,
                        a,
                        *value,
                    )
                } else {
                    r == Err::<(), _>(mem_set_err(old(memory)@, a)) && final(memory)@ == old(
                        memory,
                    )@
                },
            }),
    {
        let a = match self.resolve(name, memory) {
            Ok(a) => a,
            Err(e) => {
                return Err(e);
            },
        };
        memory.set(&a, value)
    }
}

} // verus!
