//! The scope manager: a stack of persistent variable frames.
//!
//! A freshly constructed manager holds exactly one frame, the main scope.
//! Hint code enters and exits frames explicitly; the stack never becomes
//! empty, and exiting the sole remaining frame is an error. Each frame is
//! an association list from variable name to value with pairwise distinct
//! names.

use vstd::prelude::*;
use crate::errors::{ScopeError, VmError};
use crate::felt::Felt;
use crate::relocatable::Relocatable;

verus! {

/// A value bound to a hint variable: a field element, an address, or an
/// opaque host value identified by a handle the host interprets.
#[derive(Clone, Copy, Debug, PartialEq, Eq, Structural)]
pub enum HintValue {
    Int(Felt),
    Address(Relocatable),
    Host(u64),
}

/// One variable binding.
pub type Binding = (String, HintValue);

/// The first binding of `k` in an association list, if any.
pub open spec fn frame_find(s: Seq<Binding>, k: Seq<char>) -> Option<HintValue>
    decreases s.len(),
{
    if s.len() == 0 {
        None
    } else if s[0].0@ == k {
        Some(s[0].1)
    } else {
        frame_find(s.drop_first(), k)
    }
}

/// Well-formed frame: pairwise distinct names.
pub open spec fn frame_wf(s: Seq<Binding>) -> bool {
    forall|i: int, j: int| 0 <= i < j < s.len() ==> s[i].0@ != s[j].0@
}

/// The frame after binding `name` to `v`: an existing binding of the name
/// is replaced in place, otherwise the binding is appended.
pub open spec fn frame_set(s: Seq<Binding>, name: String, v: HintValue) -> Seq<Binding>
    decreases s.len(),
{
    if s.len() == 0 {
        seq![(name, v)]
    } else if s[0].0@ == name@ {
        seq![(name, v)] + s.drop_first()
    } else {
        seq![s[0]] + frame_set(s.drop_first(), name, v)
    }
}

/// `frame_find` returns `None` exactly when no binding carries the name.
pub proof fn lemma_find_absent(s: Seq<Binding>, k: Seq<char>)
    ensures
        (frame_find(s, k) is None) <==> (forall|j: int| 0 <= j < s.len() ==> s[j].0@ != k),
    decreases s.len(),
{
    if s.len() > 0 {
        lemma_find_absent(s.drop_first(), k);
        assert(forall|j: int| 1 <= j < s.len() ==> s[j] == s.drop_first()[j - 1]);
    }
}

/// Binding a name never introduces a binding for a different absent name.
proof fn lemma_frame_set_absent(s: Seq<Binding>, name: String, v: HintValue, k: Seq<char>)
    requires
        k != name@,
        frame_find(s, k) is None,
    ensures
        frame_find(frame_set(s, name, v), k) is None,
    decreases s.len(),
{
    let t = frame_set(s, name, v);
    if s.len() == 0 {
        assert(t == seq![(name, v)]);
        assert(t[0] == (name, v));
        assert(t.drop_first() =~= Seq::<Binding>::empty());
        assert(frame_find(t, k) == frame_find(t.drop_first(), k));
        assert(frame_find(Seq::<Binding>::empty(), k) is None);
    } else if s[0].0@ == name@ {
        assert(t =~= seq![(name, v)] + s.drop_first());
        assert(t[0] == (name, v));
        assert(t.drop_first() =~= s.drop_first());
        assert(frame_find(t, k) == frame_find(t.drop_first(), k));
        assert(frame_find(s, k) == frame_find(s.drop_first(), k));
    } else {
        assert(frame_find(s, k) == frame_find(s.drop_first(), k));
        lemma_frame_set_absent(s.drop_first(), name, v, k);
        assert(t =~= seq![s[0]] + frame_set(s.drop_first(), name, v));
        assert(t[0] == s[0]);
        assert(t.drop_first() =~= frame_set(s.drop_first(), name, v));
        assert(frame_find(t, k) == frame_find(t.drop_first(), k));
    }
}

/// Binding a name updates its lookup and leaves every other name alone,
/// and keeps the frame well formed.
pub proof fn lemma_frame_set_find(s: Seq<Binding>, name: String, v: HintValue, k: Seq<char>)
    requires
        frame_wf(s),
    ensures
        frame_wf(frame_set(s, name, v)),
        frame_find(frame_set(s, name, v), k) == (if k == name@ {
            Some(v)
        } else {
            frame_find(s, k)
        }),
    decreases s.len(),
{
    let t = frame_set(s, name, v);
    assert(forall|j: int| 1 <= j < s.len() ==> s[j] == s.drop_first()[j - 1]);
    if s.len() == 0 {
        assert(t == seq![(name, v)]);
        assert(t[0] == (name, v));
        assert(t.drop_first() =~= Seq::<Binding>::empty());
        assert(frame_wf(t));
        if k == name@ {
            assert(frame_find(t, k) == Some(v));
        } else {
            assert(frame_find(t, k) == frame_find(t.drop_first(), k));
            assert(frame_find(Seq::<Binding>::empty(), k) is None);
            assert(frame_find(s, k) is None);
        }
    } else if s[0].0@ == name@ {
        assert(t =~= seq![(name, v)] + s.drop_first());
        assert(t[0] == (name, v));
        assert(t.drop_first() =~= s.drop_first());
        assert(frame_wf(s.drop_first()));
        assert forall|i: int, j: int| 0 <= i < j < t.len() implies t[i].0@ != t[j].0@ by {
            if i == 0 {
                assert(t[j] == s[j]);
                assert(s[0].0@ != s[j].0@);
            } else {
                assert(t[i] == s[i] && t[j] == s[j]);
            }
        }
        if k == name@ {
            assert(frame_find(t, k) == Some(v));
        } else {
            assert(frame_find(t, k) == frame_find(s.drop_first(), k));
            assert(frame_find(s, k) == frame_find(s.drop_first(), k));
        }
    } else {
        assert(frame_wf(s.drop_first()));
        lemma_frame_set_find(s.drop_first(), name, v, k);
        let u = frame_set(s.drop_first(), name, v);
        assert(t =~= seq![s[0]] + u);
        assert(t[0] == s[0]);
        assert(t.drop_first() =~= u);
        let k0 = s[0].0@;
        lemma_find_absent(s.drop_first(), k0);
        lemma_frame_set_absent(s.drop_first(), name, v, k0);
        lemma_frame_set_find(s.drop_first(), name, v, k0);
        lemma_find_absent(u, k0);
        assert forall|i: int, j: int| 0 <= i < j < t.len() implies t[i].0@ != t[j].0@ by {
            if i == 0 {
                assert(t[j] == u[j - 1]);
                assert(u[j - 1].0@ != k0);
            } else {
                assert(t[i] == u[i - 1] && t[j] == u[j - 1]);
            }
        }
        if s[0].0@ == k {
            assert(k != name@);
            assert(frame_find(t, k) == Some(s[0].1));
            assert(frame_find(s, k) == Some(s[0].1));
        } else {
            assert(frame_find(t, k) == frame_find(u, k));
            assert(frame_find(s, k) == frame_find(s.drop_first(), k));
        }
    }
}

/// Copy a frame, cloning each name.
pub fn clone_frame(frame: &Vec<Binding>) -> (r: Vec<Binding>)
    ensures
        r@ == frame@,
{
    let mut r: Vec<Binding> = Vec::new();
    let mut i: usize = 0;
    while i < frame.len()
        invariant
            i <= frame@.len(),
            r@ == frame@.subrange(0, i as int),
        decreases frame@.len() - i,
    {
        let e = &frame[i];
        let name = e.0.clone();
        r.push((name, e.1));
        proof {
            assert((name, e.1) == frame@[i as int]);
            assert(r@ =~= frame@.subrange(0, i as int + 1));
        }
        i = i + 1;
    }
    proof {
        assert(r@ =~= frame@);
    }
    r
}

/// Look a name up in one frame.
pub fn frame_get(frame: &Vec<Binding>, name: &String) -> (r: Option<HintValue>)
    ensures
        r == frame_find(frame@, name@),
{
    let mut i: usize = 0;
    proof {
        assert(frame@.skip(0) =~= frame@);
    }
    while i < frame.len()
        invariant
            i <= frame@.len(),
            frame_find(frame@, name@) == frame_find(frame@.skip(i as int), name@),
            forall|j: int| 0 <= j < i ==> frame@[j].0@ != name@,
        decreases frame@.len() - i,
    {
        proof {
            assert(frame@.skip(i as int)[0] == frame@[i as int]);
            assert(frame@.skip(i as int).drop_first() =~= frame@.skip(i as int + 1));
        }
        let e = &frame[i];
        if e.0 == *name {
            return Some(e.1);
        }
        i = i + 1;
    }
    proof {
        assert(frame@.skip(i as int) =~= Seq::<Binding>::empty());
    }
    None
}

/// Bind `name` to `v` in one frame, replacing an existing binding of the
/// same name in place and appending otherwise.
pub fn frame_put(frame: &mut Vec<Binding>, name: String, v: HintValue)
    ensures
        final(frame)@ == frame_set(old(frame)@, name, v),
{
    let n = frame.len();
    let mut i: usize = 0;
    while i < n
        invariant
            i <= n,
            n == frame@.len(),
            frame@ == old(frame)@,
            forall|j: int| 0 <= j < i ==> frame@[j].0@ != name@,
        decreases n - i,
    {
        let e = &frame[i];
        if e.0 == name {
            frame.set(i, (name, v));
            proof {
                lemma_frame_set_prefix(old(frame)@, i as int, name, v);
            }
            return;
        }
        i = i + 1;
    }
    frame.push((name, v));
    proof {
        lemma_frame_set_append(old(frame)@, name, v);
    }
}

/// When the first `i` names all differ from `name` and position `i`
/// carries it, binding replaces exactly position `i`.
proof fn lemma_frame_set_prefix(s: Seq<Binding>, i: int, name: String, v: HintValue)
    requires
        0 <= i < s.len(),
        s[i].0@ == name@,
        forall|j: int| 0 <= j < i ==> s[j].0@ != name@,
    ensures
        frame_set(s, name, v) == s.update(i, (name, v)),
    decreases i,
{
    if i == 0 {
        assert(frame_set(s, name, v) =~= s.update(0, (name, v)));
    } else {
        assert(forall|j: int| 1 <= j < s.len() ==> s[j] == s.drop_first()[j - 1]);
        lemma_frame_set_prefix(s.drop_first(), i - 1, name, v);
        assert(frame_set(s, name, v) =~= s.update(i, (name, v)));
    }
}

/// When no name matches, binding appends.
proof fn lemma_frame_set_append(s: Seq<Binding>, name: String, v: HintValue)
    requires
        forall|j: int| 0 <= j < s.len() ==> s[j].0@ != name@,
    ensures
        frame_set(s, name, v) == s.push((name, v)),
    decreases s.len(),
{
    if s.len() == 0 {
        assert(frame_set(s, name, v) =~= s.push((name, v)));
    } else {
        assert(forall|j: int| 1 <= j < s.len() ==> s[j] == s.drop_first()[j - 1]);
        lemma_frame_set_append(s.drop_first(), name, v);
        assert(frame_set(s, name, v) =~= s.push((name, v)));
    }
}

/// The stack of persistent variable frames.
pub struct ExecutionScopes {
    data: Vec<Vec<Binding>>,
}

impl ExecutionScopes {
    /// The model: the stack of frames, bottom first.
    pub closed spec fn view(&self) -> Seq<Seq<Binding>> {
        Seq::new(self.data@.len(), |i: int| self.data@[i]@)
    }

    /// Validity: at least the main frame remains, and each frame has
    /// pairwise distinct names.
    pub open spec fn wf(&self) -> bool {
        self@.len() >= 1 && forall|i: int| 0 <= i < self@.len() ==> frame_wf(#[trigger] self@[i])
    }

    /// A fresh manager holding exactly the empty main scope.
    pub fn new() -> (r: ExecutionScopes)
        ensures
            r.wf(),
            r@ =~= seq![Seq::<Binding>::empty()],
    {
        let mut data: Vec<Vec<Binding>> = Vec::new();
        data.push(Vec::new());
        let r = ExecutionScopes { data };
        proof {
            assert(r@ =~= seq![Seq::<Binding>::empty()]);
        }
        r
    }

    /// The number of frames on the stack.
    pub fn num_frames(&self) -> (r: usize)
        ensures
            r == self@.len(),
    {
        self.data.len()
    }

    /// Push a new frame pre-populated with the given bindings.
    pub fn enter_scope(&mut self, frame: Vec<Binding>)
        requires
            old(self).wf(),
            frame_wf(frame@),
        ensures
            final(self).wf(),
            final(self)@ == old(self)@.push(frame@),
    {
        self.data.push(frame);
        proof {
            assert(self@ =~= old(self)@.push(frame@));
        }
    }

    /// Pop the current frame; fails on the sole remaining (main) frame.
    pub fn exit_scope(&mut self) -> (r: Result<(), VmError>)
        requires
            old(self).wf(),
        ensures
            final(self).wf(),
            old(self)@.len() > 1 ==> r == Ok::<(), VmError>(()) && final(self)@ == old(
                self,
            )@.drop_last(),
            old(self)@.len() == 1 ==> r == Err::<(), _>(VmError::Scope(ScopeError::ExitMainScope))
                && final(self)@ == old(self)@,
    {
        if self.data.len() <= 1 {
            Err(VmError::Scope(ScopeError::ExitMainScope))
        } else {
            self.data.pop();
            proof {
                assert(self@ =~= old(self)@.drop_last());
            }
            Ok(())
        }
    }

    /// A read-only copy of the current (top) frame.
    pub fn current_variables(&self) -> (r: Vec<Binding>)
        requires
            self.wf(),
        ensures
            r@ == self@.last(),
    {
        clone_frame(&self.data[self.data.len() - 1])
    }

    /// Look a name up in the current frame.
    pub fn get_variable(&self, name: &String) -> (r: Result<HintValue, VmError>)
        requires
            self.wf(),
        ensures
            (match frame_find(self@.last(), name@) {
                Some(v) => r == Ok::<_, VmError>(v),
                None => r == Err::<HintValue, _>(VmError::Scope(ScopeError::VariableNotInScope)),
            }),
    {
        match frame_get(&self.data[self.data.len() - 1], name) {
            Some(v) => Ok(v),
            None => Err(VmError::Scope(ScopeError::VariableNotInScope)),
        }
    }

    /// Bind `name` to `v` in the current frame, creating the binding if
    /// it is absent.
    pub fn assign_or_update_variable(&mut self, name: String, v: HintValue)
        requires
            old(self).wf(),
        ensures
            final(self).wf(),
            final(self)@ == old(self)@.update(old(self)@.len() - 1, frame_set(
                old(self)@.last(),
                name,
                v,
            )),
    {
        let idx = self.data.len() - 1;
        let ghost name0 = name;
        let top: &mut Vec<Binding> = &mut self.data[idx];
        frame_put(top, name, v);
        proof {
            lemma_frame_set_find(old(self)@.last(), name0, v, name0@);
            assert(self@ =~= old(self)@.update(old(self)@.len() - 1, frame_set(
                old(self)@.last(),
                name0,
                v,
            )));
        }
    }
}

/// Entering a scope and then exiting it restores the stack that was
/// visible before the enter.
pub proof fn lemma_enter_exit(frames: Seq<Seq<Binding>>, f: Seq<Binding>)
    ensures
        frames.push(f).len() == frames.len() + 1,
        frames.push(f).drop_last() == frames,
{
    assert(frames.push(f).drop_last() =~= frames);
}

} // verus!
