use cairo_rs_py::errors::{HintError, ScopeError, VmError};
use cairo_rs_py::felt::Felt;
use cairo_rs_py::relocatable::{MaybeRelocatable, Relocatable};
use cairo_rs_py::scope_manager::{Binding, ExecutionScopes, HintValue};
use cairo_rs_py::vm_core::{
    ApTracking, HintEffects, HintRecord, NativeHintOutcome, PyVM, ScopeOp, ScriptOutcome,
    get_scope_locals, prepare_hint_namespace, update_scope_hint_locals,
};
use cairo_rs_py::ids::{HintReference, Ids, RefBase};

fn record(code: &str) -> HintRecord {
    HintRecord {
        code: code.to_string(),
        references: Vec::new(),
        ap_tracking: ApTracking { group: 0, offset: 0 },
    }
}

fn completed(locals: Vec<Binding>, scope_ops: Vec<ScopeOp>) -> ScriptOutcome {
    ScriptOutcome::Completed(HintEffects { locals, scope_ops })
}

#[test]
fn execute_print_hint() {
    let vm = PyVM::new(false);
    let code = "print(ap)";
    let hint_data = record(code);
    let outcome = completed(Vec::new(), Vec::new());
    assert_eq!(
        vm.execute_hint(
            &hint_data,
            &mut Vec::new(),
            &mut ExecutionScopes::new(),
            &outcome
        ),
        Ok(())
    );
}

#[test]
fn set_memory_item_hint() {
    let vm = PyVM::new(false);
    let code = "print(ap)";
    let hint_data = record(code);
    let outcome = completed(Vec::new(), Vec::new());
    assert_eq!(
        vm.execute_hint(
            &hint_data,
            &mut Vec::new(),
            &mut ExecutionScopes::new(),
            &outcome
        ),
        Ok(())
    );
}

#[test]
fn ids_hint() {
    let mut vm = PyVM::new(false);
    for _ in 0..2 {
        vm.memory.add_segment().unwrap();
    }
    let references = vec![
        (
            "a".to_string(),
            HintReference { base: RefBase::Fp, offset: 2, dereference: false, path: Vec::new() },
        ),
        (
            "b".to_string(),
            HintReference { base: RefBase::Fp, offset: 1, dereference: false, path: Vec::new() },
        ),
    ];
    vm.memory
        .set(
            &Relocatable { segment_index: 1, offset: 1 },
            &MaybeRelocatable::from_u64(2),
        )
        .unwrap();
    // The hint body is `ids.a = ids.b`: read `b`, then write the value
    // through `a`, exactly what the engine does for that code.
    let ids = Ids::new(references, Vec::new(), vm.get_ap(), vm.get_fp());
    let value = ids.get(&"b".to_string(), &vm.memory).unwrap();
    assert_eq!(ids.set(&"a".to_string(), &value, &mut vm.memory), Ok(()));
    assert_eq!(
        vm.memory.get(&Relocatable { segment_index: 1, offset: 2 }),
        Some(MaybeRelocatable::from_u64(2))
    );
}

#[test]
fn test_step_with_no_hint() {
    let mut vm = PyVM::new(false);

    for _ in 0..2 {
        vm.memory.add_segment().unwrap();
    }

    vm.set_pc(Relocatable { segment_index: 0, offset: 0 });
    vm.set_ap(2);
    vm.set_fp(2);

    vm.memory
        .set(
            &Relocatable { segment_index: 0, offset: 0 },
            &MaybeRelocatable::from_u64(2345108766317314046_u64),
        )
        .unwrap();
    vm.memory
        .set(
            &Relocatable { segment_index: 1, offset: 0 },
            &MaybeRelocatable::from_addr(Relocatable { segment_index: 2, offset: 0 }),
        )
        .unwrap();
    vm.memory
        .set(
            &Relocatable { segment_index: 1, offset: 1 },
            &MaybeRelocatable::from_addr(Relocatable { segment_index: 3, offset: 0 }),
        )
        .unwrap();

    assert_eq!(
        vm.step(
            &mut Vec::new(),
            &mut ExecutionScopes::new(),
            &Vec::new(),
            &Vec::new(),
            &Vec::new()
        ),
        Ok(())
    );
}

#[test]
fn test_step_with_print_hint() {
    let mut vm = PyVM::new(false);

    for _ in 0..2 {
        vm.memory.add_segment().unwrap();
    }

    vm.set_pc(Relocatable { segment_index: 0, offset: 0 });
    vm.set_ap(2);
    vm.set_fp(2);

    vm.memory
        .set(
            &Relocatable { segment_index: 0, offset: 0 },
            &MaybeRelocatable::from_u64(2345108766317314046_u64),
        )
        .unwrap();
    vm.memory
        .set(
            &Relocatable { segment_index: 1, offset: 0 },
            &MaybeRelocatable::from_addr(Relocatable { segment_index: 2, offset: 0 }),
        )
        .unwrap();
    vm.memory
        .set(
            &Relocatable { segment_index: 1, offset: 1 },
            &MaybeRelocatable::from_addr(Relocatable { segment_index: 3, offset: 0 }),
        )
        .unwrap();

    let code = "print(ap)";
    let dict = vec![(0_usize, vec![record(code)])];
    let natives = vec![NativeHintOutcome::UnknownHint];
    let scripts = vec![completed(Vec::new(), Vec::new())];

    assert_eq!(
        vm.step(
            &mut Vec::new(),
            &mut ExecutionScopes::new(),
            &dict,
            &natives,
            &scripts
        ),
        Ok(())
    );
}

#[test]
fn scopes_hint() {
    let vm = PyVM::new(false);
    let mut exec_scopes = ExecutionScopes::new();
    let code_a = "num = 6";
    let code_b = "assert(num == 6)";
    // Running `num = 6` leaves the binding `num = 6` in the hint's local
    // namespace; the assertion leaves it unchanged.
    let hint_data = record(code_a);
    let outcome = completed(
        vec![("num".to_string(), HintValue::Int(Felt::from_u64(6)))],
        Vec::new(),
    );
    assert_eq!(
        vm.execute_hint(&hint_data, &mut Vec::new(), &mut exec_scopes, &outcome),
        Ok(())
    );
    assert_eq!(
        exec_scopes.get_variable(&"num".to_string()),
        Ok(HintValue::Int(Felt::from_u64(6)))
    );
    let hint_data = record(code_b);
    let outcome = completed(
        vec![("num".to_string(), HintValue::Int(Felt::from_u64(6)))],
        Vec::new(),
    );
    assert_eq!(
        vm.execute_hint(&hint_data, &mut Vec::new(), &mut exec_scopes, &outcome),
        Ok(())
    );
}

#[test]
fn scopes_hint_modify() {
    let vm = PyVM::new(false);
    let mut exec_scopes = ExecutionScopes::new();
    let code_a = "num = 6";
    let code_b = "assert(num == 6)";
    let code_c = "num = num + 3";
    let code_d = "assert(num == 9)";
    let hint_data = record(code_a);
    let outcome = completed(
        vec![("num".to_string(), HintValue::Int(Felt::from_u64(6)))],
        Vec::new(),
    );
    assert_eq!(
        vm.execute_hint(&hint_data, &mut Vec::new(), &mut exec_scopes, &outcome),
        Ok(())
    );
    let hint_data = record(code_b);
    let outcome = completed(
        vec![("num".to_string(), HintValue::Int(Felt::from_u64(6)))],
        Vec::new(),
    );
    assert_eq!(
        vm.execute_hint(&hint_data, &mut Vec::new(), &mut exec_scopes, &outcome),
        Ok(())
    );
    assert_eq!(
        exec_scopes.get_variable(&"num".to_string()),
        Ok(HintValue::Int(Felt::from_u64(6)))
    );
    let hint_data = record(code_c);
    let outcome = completed(
        vec![("num".to_string(), HintValue::Int(Felt::from_u64(9)))],
        Vec::new(),
    );
    assert_eq!(
        vm.execute_hint(&hint_data, &mut Vec::new(), &mut exec_scopes, &outcome),
        Ok(())
    );
    let hint_data = record(code_d);
    let outcome = completed(
        vec![("num".to_string(), HintValue::Int(Felt::from_u64(9)))],
        Vec::new(),
    );
    assert_eq!(
        vm.execute_hint(&hint_data, &mut Vec::new(), &mut exec_scopes, &outcome),
        Ok(())
    );
    assert_eq!(
        exec_scopes.get_variable(&"num".to_string()),
        Ok(HintValue::Int(Felt::from_u64(9)))
    );
}

#[test]
fn modify_hint_locals() {
    let vm = PyVM::new(false);
    let code = "word = word[::-1]\nprint(word)";
    let hint_data = record(code);
    // The caller hands in the host string `fruity` as an opaque host
    // value; the hint rebinds `word` to the reversed host string
    // `ytiurf`, a different host value.
    let fruity = HintValue::Host(1);
    let ytiurf = HintValue::Host(2);
    let mut hint_locals = vec![("word".to_string(), fruity)];
    let mut exec_scopes = ExecutionScopes::new();
    let outcome = completed(vec![("word".to_string(), ytiurf)], Vec::new());
    assert_eq!(
        vm.execute_hint(&hint_data, &mut hint_locals, &mut exec_scopes, &outcome),
        Ok(())
    );
    assert_eq!(hint_locals, vec![("word".to_string(), ytiurf)]);
    // The rebinding went to the hint locals, not the scope frame.
    assert!(exec_scopes.get_variable(&"word".to_string()).is_err());
}

#[test]
fn exit_main_scope_hint() {
    let vm = PyVM::new(false);
    let mut exec_scopes = ExecutionScopes::new();
    let code = "vm_exit_scope()";
    let hint_data = record(code);
    let outcome = completed(Vec::new(), vec![ScopeOp::Exit]);
    assert_eq!(
        vm.execute_hint(&hint_data, &mut Vec::new(), &mut exec_scopes, &outcome),
        Err(VmError::Scope(ScopeError::ExitMainScope))
    );
}

#[test]
fn enter_scope_empty_hint() {
    let vm = PyVM::new(false);
    let mut exec_scopes = ExecutionScopes::new();
    let code = "vm_enter_scope()";
    let hint_data = record(code);
    let outcome = completed(Vec::new(), vec![ScopeOp::Enter(Vec::new())]);
    assert_eq!(
        vm.execute_hint(&hint_data, &mut Vec::new(), &mut exec_scopes, &outcome),
        Ok(())
    );
    assert_eq!(exec_scopes.num_frames(), 2);
}

#[test]
fn enter_exit_scope_hint() {
    let vm = PyVM::new(false);
    let mut exec_scopes = ExecutionScopes::new();
    let code = "vm_enter_scope()\nvm_exit_scope()";
    let hint_data = record(code);
    let outcome = completed(
        Vec::new(),
        vec![ScopeOp::Enter(Vec::new()), ScopeOp::Exit],
    );
    assert_eq!(
        vm.execute_hint(&hint_data, &mut Vec::new(), &mut exec_scopes, &outcome),
        Ok(())
    );
    assert_eq!(exec_scopes.num_frames(), 1);
}

#[test]
fn enter_scope_non_empty_hint() {
    let vm = PyVM::new(false);
    let mut exec_scopes = ExecutionScopes::new();
    let code_a = "vm_enter_scope({'n': 12})";
    let code_b = "assert(n == 12)";
    let hint_data = record(code_a);
    let outcome = completed(
        Vec::new(),
        vec![ScopeOp::Enter(vec![(
            "n".to_string(),
            HintValue::Int(Felt::from_u64(12)),
        )])],
    );
    assert_eq!(
        vm.execute_hint(&hint_data, &mut Vec::new(), &mut exec_scopes, &outcome),
        Ok(())
    );
    let hint_data = record(code_b);
    let outcome = completed(
        vec![("n".to_string(), HintValue::Int(Felt::from_u64(12)))],
        Vec::new(),
    );
    assert_eq!(
        vm.execute_hint(&hint_data, &mut Vec::new(), &mut exec_scopes, &outcome),
        Ok(())
    );
    assert_eq!(exec_scopes.num_frames(), 2);
    // The bindings landed in the entered frame; the main frame below is
    // still empty.
    assert_eq!(
        exec_scopes.get_variable(&"n".to_string()),
        Ok(HintValue::Int(Felt::from_u64(12)))
    );
    exec_scopes.exit_scope().unwrap();
    assert!(exec_scopes.current_variables().is_empty());
}

#[test]
fn step_aborts_on_host_failure() {
    let vm = PyVM::new(false);
    let dict = vec![(0_usize, vec![record("print(ap)"), record("print(ap)")])];
    let natives = vec![
        NativeHintOutcome::Failed(VmError::Hint(HintError::ScriptFailure)),
        NativeHintOutcome::UnknownHint,
    ];
    let scripts = vec![
        completed(Vec::new(), Vec::new()),
        completed(Vec::new(), Vec::new()),
    ];
    assert_eq!(
        vm.step_hint(
            &mut Vec::new(),
            &mut ExecutionScopes::new(),
            &dict,
            &natives,
            &scripts
        ),
        Err(VmError::Hint(HintError::ScriptFailure))
    );
}

#[test]
fn raised_hint_applies_no_effects() {
    let vm = PyVM::new(false);
    let mut exec_scopes = ExecutionScopes::new();
    let mut hint_locals = vec![("word".to_string(), HintValue::Host(7))];
    let outcome = ScriptOutcome::Raised;
    assert_eq!(
        vm.execute_hint(
            &record("1/0"),
            &mut hint_locals,
            &mut exec_scopes,
            &outcome
        ),
        Err(VmError::Hint(HintError::ScriptFailure))
    );
    assert_eq!(hint_locals, vec![("word".to_string(), HintValue::Host(7))]);
    assert_eq!(exec_scopes.num_frames(), 1);
    assert!(exec_scopes.current_variables().is_empty());
}

#[test]
fn reconcile_precedence_rule() {
    // A name present in the hint locals is updated there; the scope
    // frame keeps no binding for it. A new name goes to the scope frame.
    let mut exec_scopes = ExecutionScopes::new();
    let mut hint_locals = vec![("kept".to_string(), HintValue::Int(Felt::from_u64(1)))];
    let locals = vec![
        ("kept".to_string(), HintValue::Int(Felt::from_u64(5))),
        ("fresh".to_string(), HintValue::Int(Felt::from_u64(9))),
    ];
    update_scope_hint_locals(&mut exec_scopes, &mut hint_locals, &locals);
    assert_eq!(
        hint_locals,
        vec![("kept".to_string(), HintValue::Int(Felt::from_u64(5)))]
    );
    assert_eq!(
        exec_scopes.current_variables(),
        vec![("fresh".to_string(), HintValue::Int(Felt::from_u64(9)))]
    );
}

#[test]
fn scope_locals_snapshot() {
    let mut exec_scopes = ExecutionScopes::new();
    exec_scopes.assign_or_update_variable("x".to_string(), HintValue::Int(Felt::from_u64(3)));
    let snapshot = get_scope_locals(&exec_scopes);
    assert_eq!(
        snapshot,
        vec![("x".to_string(), HintValue::Int(Felt::from_u64(3)))]
    );
}

#[test]
fn enter_exit_restores_frames() {
    // Entering then exiting restores the frame count and the visible
    // variables.
    let mut exec_scopes = ExecutionScopes::new();
    exec_scopes.assign_or_update_variable("x".to_string(), HintValue::Int(Felt::from_u64(3)));
    let before = exec_scopes.num_frames();
    let visible_before = exec_scopes.current_variables();
    exec_scopes.enter_scope(vec![("y".to_string(), HintValue::Int(Felt::from_u64(4)))]);
    assert_eq!(exec_scopes.num_frames(), before + 1);
    exec_scopes.exit_scope().unwrap();
    assert_eq!(exec_scopes.num_frames(), before);
    assert_eq!(exec_scopes.current_variables(), visible_before);
    // Exiting the sole remaining frame fails whatever it holds.
    assert_eq!(
        exec_scopes.exit_scope(),
        Err(VmError::Scope(ScopeError::ExitMainScope))
    );
}

#[test]
fn unknown_variable_lookup_fails() {
    let exec_scopes = ExecutionScopes::new();
    assert_eq!(
        exec_scopes.get_variable(&"missing".to_string()),
        Err(VmError::Scope(ScopeError::VariableNotInScope))
    );
}

#[test]
fn namespace_overlays_hint_locals() {
    let mut exec_scopes = ExecutionScopes::new();
    exec_scopes.assign_or_update_variable("x".to_string(), HintValue::Int(Felt::from_u64(1)));
    exec_scopes.assign_or_update_variable("y".to_string(), HintValue::Int(Felt::from_u64(2)));
    let hint_locals = vec![
        ("y".to_string(), HintValue::Int(Felt::from_u64(20))),
        ("z".to_string(), HintValue::Int(Felt::from_u64(30))),
    ];
    // Hint locals override the scope's binding of `y` and add `z`.
    let namespace = prepare_hint_namespace(&exec_scopes, &hint_locals);
    assert_eq!(
        namespace,
        vec![
            ("x".to_string(), HintValue::Int(Felt::from_u64(1))),
            ("y".to_string(), HintValue::Int(Felt::from_u64(20))),
            ("z".to_string(), HintValue::Int(Felt::from_u64(30))),
        ]
    );
}
