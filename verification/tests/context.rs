use schedule_hook::context::HookContext;
use schedule_hook::dispatch::Fault;
use schedule_hook::record::{
    Arguments, InvocationRecord, OutputSlot, Params, Signature, Value, ValueKind,
};
use schedule_hook::registry::{HookError, InstallError, PatchAction, PatchRecord, Trampoline};
use schedule_hook::scheduler::{RunPredicate, ScheduleError, Stage};
use std::cell::RefCell;

const H: u64 = 1;
const ECHO: u64 = 10;
const DOUBLE: u64 = 11;

fn bool_to_i32() -> Signature {
    Signature { params: Params::A(ValueKind::Bool), ret: ValueKind::I32 }
}

fn echo_and_double(stage: u64, record: &InvocationRecord, slot: OutputSlot) -> Option<OutputSlot> {
    let mut slot = slot;
    match (stage, slot.ret) {
        (ECHO, _) if record.arg(0) == Some(Value::Bool(true)) => {
            slot.set(Value::I32(5));
        }
        (DOUBLE, Value::I32(v)) => {
            slot.set(Value::I32(v * 2));
        }
        _ => {}
    }
    Some(slot)
}

#[test]
fn a_hooked_call_runs_echo_before_double_and_returns_ten() {
    let mut context = HookContext::new();
    assert_eq!(context.add_hook(H, 0x1000, 0x2000, 0x3000, bool_to_i32()), Ok(()));
    assert_eq!(context.register_stage(H, Stage::new(ECHO, RunPredicate::Always)), Ok(()));
    assert_eq!(
        context.register_stage(H, Stage::new(DOUBLE, RunPredicate::Always).after(ECHO)),
        Ok(())
    );
    assert_eq!(context.enable_hook(H), Ok(PatchAction::Apply));
    let log = RefCell::new(Vec::new());
    let logged = |stage: u64, record: &InvocationRecord, slot: OutputSlot| {
        log.borrow_mut().push(stage);
        echo_and_double(stage, record, slot)
    };
    let out = context.dispatch(H, Arguments::A(Value::Bool(true)), &logged);
    assert_eq!(out.ret, Value::I32(10));
    assert_eq!(out.fault, None);
    assert_eq!(out.log, vec![ECHO, DOUBLE]);
    assert_eq!(log.into_inner(), vec![ECHO, DOUBLE]);
}

#[test]
fn a_call_to_a_hook_that_the_registry_does_not_know_is_not_dispatched() {
    let mut context = HookContext::new();
    context.register_stage(H, Stage::new(ECHO, RunPredicate::Once)).unwrap();
    let out = context.dispatch(H, Arguments::A(Value::Bool(true)), echo_and_double);
    assert_eq!((out.ret, out.log, out.fault), (Value::Unit, vec![], Some(Fault::UnknownHook)));
    context.add_hook(H, 0x1000, 0x2000, 0x3000, bool_to_i32()).unwrap();
    let out = context.dispatch(H, Arguments::A(Value::Bool(true)), echo_and_double);
    assert_eq!((out.ret, out.log, out.fault), (Value::I32(5), vec![ECHO], None));
}

#[test]
fn a_hook_without_stages_returns_the_zero_value() {
    let mut context = HookContext::new();
    let signature = Signature { params: Params::Nullary, ret: ValueKind::U64 };
    context.add_hook(H, 0x1000, 0x2000, 0x3000, signature).unwrap();
    let out = context.dispatch(H, Arguments::Nullary, echo_and_double);
    assert_eq!((out.ret, out.log, out.fault), (Value::U64(0), vec![], None));
    let out = context.dispatch(H, Arguments::A(Value::Bool(true)), echo_and_double);
    assert_eq!((out.ret, out.log, out.fault), (Value::U64(0), vec![], Some(Fault::BadArguments)));
    assert_eq!(context.stage_order(H), Vec::<u64>::new());
}

#[test]
fn each_hook_has_its_own_pipeline() {
    let mut context = HookContext::new();
    context.add_hook(1, 0x1000, 0x2000, 0x3000, bool_to_i32()).unwrap();
    context.add_hook(2, 0x1100, 0x2100, 0x3100, bool_to_i32()).unwrap();
    context.register_stage(1, Stage::new(ECHO, RunPredicate::Always)).unwrap();
    context.register_stage(2, Stage::new(DOUBLE, RunPredicate::Always)).unwrap();
    context.register_stage(2, Stage::new(ECHO, RunPredicate::Always).before(DOUBLE)).unwrap();
    assert_eq!(context.stage_order(1), vec![ECHO]);
    assert_eq!(context.stage_order(2), vec![ECHO, DOUBLE]);
    assert_eq!(context.stage_order(3), Vec::<u64>::new());
    let out = context.dispatch(1, Arguments::A(Value::Bool(true)), echo_and_double);
    assert_eq!((out.ret, out.log), (Value::I32(5), vec![ECHO]));
    let out = context.dispatch(2, Arguments::A(Value::Bool(true)), echo_and_double);
    assert_eq!((out.ret, out.log), (Value::I32(10), vec![ECHO, DOUBLE]));
}

#[test]
fn a_cyclic_batch_installs_no_stage_and_no_pipeline() {
    let mut context = HookContext::new();
    let batch = vec![
        Stage::new(ECHO, RunPredicate::Always).before(DOUBLE),
        Stage::new(DOUBLE, RunPredicate::Always).before(ECHO),
    ];
    assert_eq!(context.register_stages(H, batch), Err(ScheduleError::CyclicConstraint));
    assert_eq!(context.stage_order(H), Vec::<u64>::new());
    context.register_stage(H, Stage::new(ECHO, RunPredicate::Always)).unwrap();
    assert_eq!(
        context.register_stage(H, Stage::new(DOUBLE, RunPredicate::Always).after(DOUBLE)),
        Err(ScheduleError::CyclicConstraint)
    );
    assert_eq!(
        context.register_stage(H, Stage::new(ECHO, RunPredicate::Always)),
        Err(ScheduleError::DuplicateStage { id: ECHO })
    );
    assert_eq!(context.stage_order(H), vec![ECHO]);
}

#[test]
fn hooks_are_added_toggled_and_removed_through_the_context() {
    let mut context = HookContext::new();
    assert_eq!(context.can_add_hook(H, 0x1000), Ok(()));
    assert_eq!(context.can_add_hook(H, 0), Err(HookError::Install(InstallError::InvalidTarget)));
    assert_eq!(context.add_hook(H, 0x1000, 0x2000, 0x3000, bool_to_i32()), Ok(()));
    assert_eq!(context.can_add_hook(H, 0x4000), Err(HookError::AlreadyRegistered));
    assert_eq!(
        context.can_add_hook(2, 0x1000),
        Err(HookError::Install(InstallError::AlreadyInstalled))
    );
    assert_eq!(context.enable_hook(H), Ok(PatchAction::Apply));
    assert_eq!(context.enable_hook(H), Ok(PatchAction::Keep));
    assert_eq!(context.disable_hook(H), Ok(PatchAction::Restore));
    assert_eq!(context.disable_hook(H), Ok(PatchAction::Keep));
    assert_eq!(context.enable_hook(2), Err(HookError::UnknownHook));
    assert_eq!(
        context.get_original(H, bool_to_i32()),
        Ok(Trampoline { address: 0x3000, signature: bool_to_i32() })
    );
    let other = Signature { params: Params::Nullary, ret: ValueKind::I32 };
    assert_eq!(context.get_original(H, other), Err(HookError::SignatureMismatch));
    context.enable_hook(H).unwrap();
    let record = context.remove_hook(H).unwrap();
    assert_eq!(
        record,
        PatchRecord {
            target: 0x1000,
            replacement: 0x2000,
            trampoline: 0x3000,
            signature: bool_to_i32(),
            enabled: true
        }
    );
    assert_eq!(record.removal_action(), PatchAction::Restore);
    assert_eq!(context.remove_hook(H), Err(HookError::UnknownHook));
    assert_eq!(context.get_original(H, bool_to_i32()), Err(HookError::UnknownHook));
}

#[test]
fn two_contexts_do_not_know_of_each_other() {
    let mut first = HookContext::new();
    let mut second = HookContext::new();
    first.add_hook(H, 0x1000, 0x2000, 0x3000, bool_to_i32()).unwrap();
    assert_eq!(second.enable_hook(H), Err(HookError::UnknownHook));
    assert_eq!(second.add_hook(H, 0x1000, 0x2000, 0x3000, bool_to_i32()), Ok(()));
    first.register_stage(H, Stage::new(ECHO, RunPredicate::Always)).unwrap();
    assert_eq!(first.stage_order(H), vec![ECHO]);
    assert_eq!(second.stage_order(H), Vec::<u64>::new());
}

#[test]
fn a_stage_that_calls_the_original_does_not_enter_the_bridge_again() {
    fn target_fn(x: i32) -> i32 {
        x * 2 + 1
    }
    let entered = std::cell::Cell::new(0u32);
    let mut context = HookContext::new();
    let signature = Signature { params: Params::A(ValueKind::I32), ret: ValueKind::I32 };
    context.add_hook(H, 0x1000, 0x2000, 0x3000, signature).unwrap();
    context.register_stage(H, Stage::new(ECHO, RunPredicate::Always)).unwrap();
    context.enable_hook(H).unwrap();
    let original = context.get_original(H, signature).unwrap();
    assert_eq!(original.address, 0x3000);
    let mut bridge = |x: i32| -> i32 {
        entered.set(entered.get() + 1);
        let out = context.dispatch(H, Arguments::A(Value::I32(x)), |_, record, slot| {
            let mut slot = slot;
            match record.arg(0) {
                Some(Value::I32(x)) => slot.set(Value::I32(target_fn(x))),
                _ => return None,
            };
            Some(slot)
        });
        match out.ret {
            Value::I32(ret) => ret,
            _ => 0,
        }
    };
    for x in -100..100 {
        entered.set(0);
        assert_eq!(bridge(x), target_fn(x));
        assert_eq!(entered.get(), 1);
    }
}
