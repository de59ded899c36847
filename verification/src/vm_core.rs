//! The hint dispatch stepper and the reconciliation of hint effects.
//!
//! For each machine step the stepper looks up the hint records attached
//! to the current program-counter offset and runs them in order: each is
//! first offered to the host's native hint table; only if the host
//! reports the hint as unknown does the embedded scripting engine run it.
//! The engine itself is an external collaborator: the stepper receives
//! its outcome — the hint's final local bindings and its scope
//! enter/exit requests — and reconciles them into the caller-owned hint
//! locals and the persistent scope stack. An instruction may execute
//! only after every hint for the offset succeeded.

use vstd::prelude::*;
use crate::errors::{HintError, ScopeError, VmError};
use crate::ids::HintReference;
use crate::memory::Memory;
use crate::relocatable::{MaybeRelocatable, Relocatable};
use crate::scope_manager::{
    frame_find, frame_set, frame_wf, frame_put, Binding, ExecutionScopes, HintValue,
};

verus! {

/// What the host's native hint table reported for one hint record.
#[derive(Clone, Copy, Debug, PartialEq, Eq, Structural)]
pub enum NativeHintOutcome {
    /// The host executed the hint natively.
    Executed,
    /// The host does not recognise the hint; the scripting fallback runs.
    UnknownHint,
    /// The host failed; the step aborts.
    Failed(VmError),
}

/// A scope request a hint made while running, in call order.
pub enum ScopeOp {
    Enter(Vec<Binding>),
    Exit,
}

/// The side effects of one completed hint body: its final local variable
/// bindings, in binding order, and its scope requests, in call order.
pub struct HintEffects {
    pub locals: Vec<Binding>,
    pub scope_ops: Vec<ScopeOp>,
}

/// What the embedded scripting engine reported for one hint body.
pub enum ScriptOutcome {
    /// The body ran to completion with these effects.
    Completed(HintEffects),
    /// The body raised a syntax or runtime error; no effects apply.
    Raised,
}

/// Ap-tracking metadata recorded with a hint, consumed by the host.
#[derive(Clone, Copy, Debug, PartialEq, Eq, Structural)]
pub struct ApTracking {
    pub group: usize,
    pub offset: usize,
}

/// One hint attached to a program-counter offset.
pub struct HintRecord {
    pub code: String,
    pub references: Vec<(String, HintReference)>,
    pub ap_tracking: ApTracking,
}

/// Reconciliation of a hint's final bindings, one binding at a time and
/// in binding order: a name already present in the hint locals updates
/// the hint locals; any other name is written into the current scope
/// frame. Returns the frames and the hint locals afterwards.
pub open spec fn reconcile_spec(
    frames: Seq<Seq<Binding>>,
    hl: Seq<Binding>,
    locals: Seq<Binding>,
) -> (Seq<Seq<Binding>>, Seq<Binding>)
    decreases locals.len(),
{
    if locals.len() == 0 {
        (frames, hl)
    } else {
        let name = locals[0].0;
        let v = locals[0].1;
        if frame_find(hl, name@) is Some {
            reconcile_spec(frames, frame_set(hl, name, v), locals.drop_first())
        } else {
            reconcile_spec(
                frames.update(frames.len() - 1, frame_set(frames.last(), name, v)),
                hl,
                locals.drop_first(),
            )
        }
    }
}

/// The two-tier persistence rule, for one binding: a name present in the
/// hint locals updates them and leaves the scope frames untouched; an
/// absent name is created in the current scope frame and leaves the hint
/// locals untouched.
pub proof fn lemma_reconcile_precedence(
    frames: Seq<Seq<Binding>>,
    hl: Seq<Binding>,
    name: String,
    v: HintValue,
)
    requires
        frames.len() >= 1,
        frame_wf(hl),
        frame_wf(frames.last()),
    ensures
        frame_find(hl, name@) is Some ==> reconcile_spec(frames, hl, seq![(name, v)])
            == (frames, frame_set(hl, name, v)) && frame_find(frame_set(hl, name, v), name@)
            == Some(v),
        frame_find(hl, name@) is None ==> reconcile_spec(frames, hl, seq![(name, v)]) == (
            frames.update(frames.len() - 1, frame_set(frames.last(), name, v)),
            hl,
        ) && frame_find(frame_set(frames.last(), name, v), name@) == Some(v),
{
    let l = seq![(name, v)];
    assert(l[0] == (name, v));
    assert(l.drop_first() =~= Seq::<Binding>::empty());
    crate::scope_manager::lemma_frame_set_find(hl, name, v, name@);
    crate::scope_manager::lemma_frame_set_find(frames.last(), name, v, name@);
    if frame_find(hl, name@) is Some {
        assert(reconcile_spec(frames, frame_set(hl, name, v), l.drop_first()) == (
            frames,
            frame_set(hl, name, v),
        ));
    } else {
        let frames2 = frames.update(frames.len() - 1, frame_set(frames.last(), name, v));
        assert(reconcile_spec(frames2, hl, l.drop_first()) == (frames2, hl));
    }
}

/// A read-only snapshot of the current scope frame, used to seed a
/// hint's local namespace.
pub fn get_scope_locals(exec_scopes: &ExecutionScopes) -> (r: Vec<Binding>)
    requires
        exec_scopes.wf(),
    ensures
        r@ == exec_scopes@.last(),
{
    exec_scopes.current_variables()
}

/// A frame with every binding of `extra` laid over `base`, in order:
/// a name of `extra` overrides the binding `base` has for it.
pub open spec fn overlay(base: Seq<Binding>, extra: Seq<Binding>) -> Seq<Binding>
    decreases extra.len(),
{
    if extra.len() == 0 {
        base
    } else {
        overlay(frame_set(base, extra[0].0, extra[0].1), extra.drop_first())
    }
}

/// Build the local namespace a hint body sees: the current scope frame's
/// variables, with every hint-locals entry laid over them.
#[verifier::loop_isolation(false)]
pub fn prepare_hint_namespace(exec_scopes: &ExecutionScopes, hint_locals: &Vec<Binding>) -> (r:
    Vec<Binding>)
    requires
        exec_scopes.wf(),
    ensures
        r@ == overlay(exec_scopes@.last(), hint_locals@),
{
    let mut r = exec_scopes.current_variables();
    proof {
        assert(hint_locals@.skip(0) =~= hint_locals@);
    }
    let n = hint_locals.len();
    let mut i: usize = 0;
    while i < n
        invariant
            i <= n,
            n == hint_locals@.len(),
            overlay(exec_scopes@.last(), hint_locals@) == overlay(r@, hint_locals@.skip(i as int)),
        decreases n - i,
    {
        proof {
            assert(hint_locals@.skip(i as int)[0] == hint_locals@[i as int]);
            assert(hint_locals@.skip(i as int).drop_first() =~= hint_locals@.skip(i as int + 1));
        }
        let e = &hint_locals[i];
        frame_put(&mut r, e.0.clone(), e.1);
        i = i + 1;
    }
    proof {
        assert(hint_locals@.skip(i as int) =~= Seq::<Binding>::empty());
    }
    r
}

/// Apply the reconciliation rule to every binding of `locals`, in order.
pub fn update_scope_hint_locals(
    exec_scopes: &mut ExecutionScopes,
    hint_locals: &mut Vec<Binding>,
    locals: &Vec<Binding>,
)
    requires
        old(exec_scopes).wf(),
        frame_wf(old(hint_locals)@),
    ensures
        final(exec_scopes).wf(),
        frame_wf(final(hint_locals)@),
        (final(exec_scopes)@, final(hint_locals)@) == reconcile_spec(
            old(exec_scopes)@,
            old(hint_locals)@,
            locals@,
        ),
{
    let ghost target = reconcile_spec(exec_scopes@, hint_locals@, locals@);
    proof {
        assert(locals@.skip(0) =~= locals@);
    }
    let n = locals.len();
    let mut i: usize = 0;
    while i < n
        invariant
            i <= n,
            n == locals@.len(),
            exec_scopes.wf(),
            frame_wf(hint_locals@),
            target == reconcile_spec(exec_scopes@, hint_locals@, locals@.skip(i as int)),
        decreases n - i,
    {
        proof {
            assert(locals@.skip(i as int)[0] == locals@[i as int]);
            assert(locals@.skip(i as int).drop_first() =~= locals@.skip(i as int + 1));
        }
        let e = &locals[i];
        let name = e.0.clone();
        let v = e.1;
        proof {
            crate::scope_manager::lemma_frame_set_find(hint_locals@, name, v, name@);
            crate::scope_manager::lemma_frame_set_find(exec_scopes@.last(), name, v, name@);
        }
        match crate::scope_manager::frame_get(hint_locals, &name) {
            Some(_) => {
                frame_put(hint_locals, name, v);
            },
            None => {
                exec_scopes.assign_or_update_variable(name, v);
            },
        }
        i = i + 1;
    }
    proof {
        assert(locals@.skip(i as int) =~= Seq::<Binding>::empty());
    }
}

/// Well-formed scope requests: every entered frame has distinct names.
pub open spec fn ops_wf(ops: Seq<ScopeOp>) -> bool {
    forall|j: int|
        0 <= j < ops.len() ==> (#[trigger] ops[j] matches ScopeOp::Enter(f) ==> frame_wf(f@))
}

/// The frames after applying scope requests in call order: an enter
/// pushes its frame; an exit pops, unless only the main frame remains,
/// which stops with the scope error and keeps the stack.
pub open spec fn apply_ops_spec(frames: Seq<Seq<Binding>>, ops: Seq<ScopeOp>) -> (Option<
    VmError,
>, Seq<Seq<Binding>>)
    decreases ops.len(),
{
    if ops.len() == 0 {
        (None, frames)
    } else {
        match ops[0] {
            ScopeOp::Enter(f) => apply_ops_spec(frames.push(f@), ops.drop_first()),
            ScopeOp::Exit => if frames.len() > 1 {
                apply_ops_spec(frames.drop_last(), ops.drop_first())
            } else {
                (Some(VmError::Scope(ScopeError::ExitMainScope)), frames)
            },
        }
    }
}

/// Apply a hint's scope requests in call order; the first failing exit
/// aborts and keeps the stack reached so far.
#[verifier::loop_isolation(false)]
pub fn apply_scope_ops(exec_scopes: &mut ExecutionScopes, ops: &Vec<ScopeOp>) -> (r: Result<
    (),
    VmError,
>)
    requires
        old(exec_scopes).wf(),
        ops_wf(ops@),
    ensures
        final(exec_scopes).wf(),
        final(exec_scopes)@ == apply_ops_spec(old(exec_scopes)@, ops@).1,
        (match apply_ops_spec(old(exec_scopes)@, ops@).0 {
            Some(e) => r == Err::<(), _>(e),
            None => r == Ok::<(), VmError>(()),
        }),
{
    let ghost target = apply_ops_spec(exec_scopes@, ops@);
    proof {
        assert(ops@.skip(0) =~= ops@);
    }
    let n = ops.len();
    let mut k: usize = 0;
    while k < n
        invariant
            k <= n,
            n == ops@.len(),
            exec_scopes.wf(),
            target == apply_ops_spec(exec_scopes@, ops@.skip(k as int)),
        decreases n - k,
    {
        proof {
            assert(ops@.skip(k as int)[0] == ops@[k as int]);
            assert(ops@.skip(k as int).drop_first() =~= ops@.skip(k as int + 1));
        }
        match &ops[k] {
            ScopeOp::Enter(f) => {
                proof {
                    assert(ops@[k as int] == ScopeOp::Enter(*f));
                    assert(frame_wf(f@));
                }
                let frame = crate::scope_manager::clone_frame(f);
                exec_scopes.enter_scope(frame);
            },
            ScopeOp::Exit => {
                match exec_scopes.exit_scope() {
                    Ok(_) => {},
                    Err(e) => {
                        return Err(e);
                    },
                }
            },
        }
        k = k + 1;
    }
    proof {
        assert(ops@.skip(k as int) =~= Seq::<ScopeOp>::empty());
    }
    Ok(())
}

/// Whether a script outcome's scope requests are well formed.
pub open spec fn outcome_wf(o: ScriptOutcome) -> bool {
    o matches ScriptOutcome::Completed(eff) ==> ops_wf(eff.scope_ops@)
}

/// The state after one hint body, given the engine's report: a raised
/// error applies nothing; a completed body first reconciles its final
/// bindings, then applies its scope requests in call order.
pub open spec fn execute_hint_spec(
    frames: Seq<Seq<Binding>>,
    hl: Seq<Binding>,
    outcome: ScriptOutcome,
) -> (Option<VmError>, Seq<Seq<Binding>>, Seq<Binding>) {
    match outcome {
        ScriptOutcome::Raised => (Some(VmError::Hint(HintError::ScriptFailure)), frames, hl),
        ScriptOutcome::Completed(eff) => {
            let rec = reconcile_spec(frames, hl, eff.locals@);
            let ops = apply_ops_spec(rec.0, eff.scope_ops@);
            (ops.0, ops.1, rec.1)
        },
    }
}

/// The first list of hint records attached to offset `k`, if any.
pub open spec fn hints_find(s: Seq<(usize, Vec<HintRecord>)>, k: usize) -> Option<Vec<HintRecord>>
    decreases s.len(),
{
    if s.len() == 0 {
        None
    } else if s[0].0 == k {
        Some(s[0].1)
    } else {
        hints_find(s.drop_first(), k)
    }
}

/// Index of the hint list attached to offset `k`, with its meaning.
pub fn hints_index(s: &Vec<(usize, Vec<HintRecord>)>, k: usize) -> (r: Option<usize>)
    ensures
        (match r {
            Some(i) => i < s@.len() && s@[i as int].0 == k && hints_find(s@, k) == Some(
                s@[i as int].1,
            ),
            None => hints_find(s@, k) is None,
        }),
{
    let mut i: usize = 0;
    proof {
        assert(s@.skip(0) =~= s@);
    }
    while i < s.len()
        invariant
            i <= s@.len(),
            hints_find(s@, k) == hints_find(s@.skip(i as int), k),
        decreases s@.len() - i,
    {
        proof {
            assert(s@.skip(i as int)[0] == s@[i as int]);
            assert(s@.skip(i as int).drop_first() =~= s@.skip(i as int + 1));
        }
        if s[i].0 == k {
            return Some(i);
        }
        i = i + 1;
    }
    proof {
        assert(s@.skip(i as int) =~= Seq::<(usize, Vec<HintRecord>)>::empty());
    }
    None
}

/// Whether every script outcome in a list is well formed.
pub open spec fn scripts_wf(s: Seq<ScriptOutcome>) -> bool {
    forall|j: int| 0 <= j < s.len() ==> outcome_wf(#[trigger] s[j])
}

/// The state after running a list of hints in attachment order. Each is
/// first offered to the host: a natively executed hint changes nothing
/// here, an unknown hint runs its script outcome, and any failure stops
/// the list with the effects of the successful prefix kept.
pub open spec fn run_hints_spec(
    frames: Seq<Seq<Binding>>,
    hl: Seq<Binding>,
    natives: Seq<NativeHintOutcome>,
    scripts: Seq<ScriptOutcome>,
) -> (Option<VmError>, Seq<Seq<Binding>>, Seq<Binding>)
    decreases natives.len(),
{
    if natives.len() == 0 {
        (None, frames, hl)
    } else {
        match natives[0] {
            NativeHintOutcome::Failed(e) => (Some(e), frames, hl),
            NativeHintOutcome::Executed => run_hints_spec(
                frames,
                hl,
                natives.drop_first(),
                scripts.drop_first(),
            ),
            NativeHintOutcome::UnknownHint => {
                let step = execute_hint_spec(frames, hl, scripts[0]);
                if step.0 is Some {
                    step
                } else {
                    run_hints_spec(step.1, step.2, natives.drop_first(), scripts.drop_first())
                }
            },
        }
    }
}

/// The machine state the bridge consumes: the memory store and the
/// `ap`, `fp` and `pc` registers.
pub struct PyVM {
    pub memory: Memory,
    pub ap: Relocatable,
    pub fp: Relocatable,
    pub pc: Relocatable,
    pub trace_enabled: bool,
}

impl PyVM {
    pub fn new(trace_enabled: bool) -> (r: PyVM)
        ensures
            r.memory@ == Seq::<Seq<Option<MaybeRelocatable>>>::empty(),
            r.ap == (Relocatable { segment_index: 1, offset: 0 }),
            r.fp == (Relocatable { segment_index: 1, offset: 0 }),
            r.pc == (Relocatable { segment_index: 0, offset: 0 }),
            r.trace_enabled == trace_enabled,
    {
        PyVM {
            memory: Memory::new(),
            ap: Relocatable { segment_index: 1, offset: 0 },
            fp: Relocatable { segment_index: 1, offset: 0 },
            pc: Relocatable { segment_index: 0, offset: 0 },
            trace_enabled,
        }
    }

    pub fn get_ap(&self) -> (r: Relocatable)
        ensures
            r == self.ap,
    {
        self.ap
    }

    pub fn get_fp(&self) -> (r: Relocatable)
        ensures
            r == self.fp,
    {
        self.fp
    }

    pub fn get_pc(&self) -> (r: Relocatable)
        ensures
            r == self.pc,
    {
        self.pc
    }

    /// Point `ap` at the given offset of the execution segment.
    pub fn set_ap(&mut self, offset: usize)
        ensures
            *final(self) == (PyVM {
                ap: Relocatable { segment_index: 1, offset },
                ..*old(self)
            }),
    {
        self.ap = Relocatable { segment_index: 1, offset };
    }

    /// Point `fp` at the given offset of the execution segment.
    pub fn set_fp(&mut self, offset: usize)
        ensures
            *final(self) == (PyVM {
                fp: Relocatable { segment_index: 1, offset },
                ..*old(self)
            }),
    {
        self.fp = Relocatable { segment_index: 1, offset };
    }

    pub fn set_pc(&mut self, pc: Relocatable)
        ensures
            *final(self) == (PyVM { pc, ..*old(self) }),
    {
        self.pc = pc;
    }

    /// Decide the fallback from the host's report: a natively executed
    /// hint needs no script run, an unknown hint does, and any other
    /// host failure aborts the step.
    pub fn should_run_py_hint(&self, outcome: &NativeHintOutcome) -> (r: Result<bool, VmError>)
        ensures
            (match *outcome {
                NativeHintOutcome::Executed => r == Ok::<_, VmError>(false),
                NativeHintOutcome::UnknownHint => r == Ok::<_, VmError>(true),
                NativeHintOutcome::Failed(e) => r == Err::<bool, _>(e),
            }),
    {
        match outcome {
            NativeHintOutcome::Executed => Ok(false),
            NativeHintOutcome::UnknownHint => Ok(true),
            NativeHintOutcome::Failed(e) => Err(*e),
        }
    }

    /// Apply the engine's report for one hint body: nothing on a raised
    /// error, else reconcile the final bindings and apply the scope
    /// requests. The hint record is the one the engine ran; its memory
    /// effects were already applied through the memory bridge while the
    /// body ran.
    pub fn execute_hint(
        &self,
        hint_data: &HintRecord,
        hint_locals: &mut Vec<Binding>,
        exec_scopes: &mut ExecutionScopes,
        outcome: &ScriptOutcome,
    ) -> (r: Result<(), VmError>)
        requires
            old(exec_scopes).wf(),
            frame_wf(old(hint_locals)@),
            outcome_wf(*outcome),
        ensures
            final(exec_scopes).wf(),
            frame_wf(final(hint_locals)@),
            ({
                let out = execute_hint_spec(old(exec_scopes)@, old(hint_locals)@, *outcome);
                final(exec_scopes)@ == out.1 && final(hint_locals)@ == out.2 && (match out.0 {
                    Some(e) => r == Err::<(), _>(e),
                    None => r == Ok::<(), VmError>(()),
                })
            }),
    {
        let _ = hint_data;
        match outcome {
            ScriptOutcome::Raised => Err(VmError::Hint(HintError::ScriptFailure)),
            ScriptOutcome::Completed(eff) => {
                update_scope_hint_locals(exec_scopes, hint_locals, &eff.locals);
                apply_scope_ops(exec_scopes, &eff.scope_ops)
            },
        }
    }

    /// Run every hint attached to the current program-counter offset, in
    /// attachment order: offer each to the host first and fall back to
    /// its script outcome only when the host reports it unknown. The
    /// first failure aborts the step, keeping the effects of the
    /// successful prefix.
    #[verifier::loop_isolation(false)]
    pub fn step_hint(
        &self,
        hint_locals: &mut Vec<Binding>,
        exec_scopes: &mut ExecutionScopes,
        hint_data_dictionary: &Vec<(usize, Vec<HintRecord>)>,
        natives: &Vec<NativeHintOutcome>,
        scripts: &Vec<ScriptOutcome>,
    ) -> (r: Result<(), VmError>)
        requires
            old(exec_scopes).wf(),
            frame_wf(old(hint_locals)@),
            scripts_wf(scripts@),
            (match hints_find(hint_data_dictionary@, self.pc.offset) {
                Some(list) => natives@.len() == list@.len() && scripts@.len() == list@.len(),
                None => true,
            }),
        ensures
            final(exec_scopes).wf(),
            frame_wf(final(hint_locals)@),
            (match hints_find(hint_data_dictionary@, self.pc.offset) {
                None => r == Ok::<(), VmError>(()) && final(exec_scopes)@ == old(exec_scopes)@
                    && final(hint_locals)@ == old(hint_locals)@,
                Some(_) => ({
                    let out = run_hints_spec(
                        old(exec_scopes)@,
                        old(hint_locals)@,
                        natives@,
                        scripts@,
                    );
                    final(exec_scopes)@ == out.1 && final(hint_locals)@ == out.2 && (match out.0 {
                        Some(e) => r == Err::<(), _>(e),
                        None => r == Ok::<(), VmError>(()),
                    })
                }),
            }),
    {
        let idx = match hints_index(hint_data_dictionary, self.pc.offset) {
            None => {
                return Ok(());
            },
            Some(i) => i,
        };
        let hint_list = &hint_data_dictionary[idx].1;
        let ghost target = run_hints_spec(exec_scopes@, hint_locals@, natives@, scripts@);
        proof {
            assert(natives@.skip(0) =~= natives@);
            assert(scripts@.skip(0) =~= scripts@);
        }
        let n = natives.len();
        let mut k: usize = 0;
        while k < n
            invariant
                k <= n,
                n == natives@.len(),
                n == scripts@.len(),
                n == hint_list@.len(),
                scripts_wf(scripts@),
                exec_scopes.wf(),
                frame_wf(hint_locals@),
                target == run_hints_spec(
                    exec_scopes@,
                    hint_locals@,
                    natives@.skip(k as int),
                    scripts@.skip(k as int),
                ),
            decreases n - k,
        {
            proof {
                assert(natives@.skip(k as int)[0] == natives@[k as int]);
                assert(natives@.skip(k as int).drop_first() =~= natives@.skip(k as int + 1));
                assert(scripts@.skip(k as int)[0] == scripts@[k as int]);
                assert(scripts@.skip(k as int).drop_first() =~= scripts@.skip(k as int + 1));
            }
            let run_script = match self.should_run_py_hint(&natives[k]) {
                Ok(b) => b,
                Err(e) => {
                    return Err(e);
                },
            };
            if run_script {
                proof {
                    assert(outcome_wf(scripts@[k as int]));
                }
                match self.execute_hint(&hint_list[k], hint_locals, exec_scopes, &scripts[k]) {
                    Ok(_) => {},
                    Err(e) => {
                        return Err(e);
                    },
                }
            }
            k = k + 1;
        }
        proof {
            assert(natives@.skip(k as int) =~= Seq::<NativeHintOutcome>::empty());
        }
        Ok(())
    }

    /// One machine step: run the hints for the current offset, and only
    /// if every one of them succeeded may the caller execute exactly one
    /// instruction. Instruction execution itself belongs to the machine
    /// engine, not to the bridge.
    pub fn step(
        &self,
        hint_locals: &mut Vec<Binding>,
        exec_scopes: &mut ExecutionScopes,
        hint_data_dictionary: &Vec<(usize, Vec<HintRecord>)>,
        natives: &Vec<NativeHintOutcome>,
        scripts: &Vec<ScriptOutcome>,
    ) -> (r: Result<(), VmError>)
        requires
            old(exec_scopes).wf(),
            frame_wf(old(hint_locals)@),
            scripts_wf(scripts@),
            (match hints_find(hint_data_dictionary@, self.pc.offset) {
                Some(list) => natives@.len() == list@.len() && scripts@.len() == list@.len(),
                None => true,
            }),
        ensures
            final(exec_scopes).wf(),
            frame_wf(final(hint_locals)@),
            (match hints_find(hint_data_dictionary@, self.pc.offset) {
                None => r == Ok::<(), VmError>(()) && final(exec_scopes)@ == old(exec_scopes)@
                    && final(hint_locals)@ == old(hint_locals)@,
                Some(_) => ({
                    let out = run_hints_spec(
                        old(exec_scopes)@,
                        old(hint_locals)@,
                        natives@,
                        scripts@,
                    );
                    final(exec_scopes)@ == out.1 && final(hint_locals)@ == out.2 && (match out.0 {
                        Some(e) => r == Err::<(), _>(e),
                        None => r == Ok::<(), VmError>(()),
                    })
                }),
            }),
    {
        self.step_hint(hint_locals, exec_scopes, hint_data_dictionary, natives, scripts)
    }
}

} // verus!
