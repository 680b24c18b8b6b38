//! The dispatch bridge: what runs in place of an intercepted function.

use crate::pipeline::Pipeline;
use crate::record::{Arguments, InvocationRecord, OutputSlot, Signature, Value, ValueKind};
use crate::scheduler::run_list;
use vstd::prelude::*;

verus! {

/// What went wrong in a dispatch. The native caller never sees it: it gets
/// the zero value of the return kind, or the unit value where the hook is
/// not known.
#[derive(Clone, Copy, Debug, PartialEq, Eq, Structural)]
pub enum Fault {
    /// The registry has no entry for the hook.
    UnknownHook,
    /// The arguments do not have the kinds of the hook's signature.
    BadArguments,
    /// This stage failed, or handed back a slot that does not belong to the
    /// call.
    StageFailed { stage: u64 },
}

/// What a dispatch hands back: the value for the native caller, the names
/// of the stages that were started, in running order, and the fault if there
/// was one.
#[derive(Debug)]
pub struct DispatchOutcome {
    pub ret: Value,
    pub log: Vec<u64>,
    pub fault: Option<Fault>,
}

/// A stage's result is taken when it is a slot of this hook that holds a
/// value of the return kind.
pub open spec fn accepted(res: Option<OutputSlot>, hook: u64, kind: ValueKind) -> bool {
    match res {
        Some(slot) => slot.hook == hook && slot.ret.kind_of() == kind,
        None => false,
    }
}

/// `out` is the outcome of running the stages of `plan` one after the other
/// on `record`, where `slots` are the states of the output slot: `slots[0]`
/// is the zero slot, and each stage is handed the slot that the stage before
/// it left. When a stage's result `last` is not taken, the run ends there
/// with a fault and the zero value; otherwise the last slot gives the value.
pub open spec fn is_dispatch_of<F: Fn(u64, &InvocationRecord, OutputSlot) -> Option<OutputSlot>>(
    run_stage: F,
    record: InvocationRecord,
    kind: ValueKind,
    plan: Seq<u64>,
    slots: Seq<OutputSlot>,
    last: Option<OutputSlot>,
    out: DispatchOutcome,
) -> bool {
    let done = slots.len() - 1;
    &&& slots.len() >= 1
    &&& done <= plan.len()
    &&& slots[0] == OutputSlot::zero_of(record.hook, kind)
    &&& forall|k: int|
        1 <= k <= done ==> call_ensures(
            run_stage,
            (plan[k - 1], &record, slots[k - 1]),
            Some(#[trigger] slots[k]),
        ) && accepted(Some(slots[k]), record.hook, kind)
    &&& if done == plan.len() {
        &&& out.fault is None
        &&& out.log@ == plan
        &&& out.ret == slots[done].ret
    } else {
        &&& out.fault == Some(Fault::StageFailed { stage: plan[done] })
        &&& out.log@ == plan.take(done + 1)
        &&& out.ret == Value::zero_of(kind)
        &&& call_ensures(run_stage, (plan[done], &record, slots[done]), last)
        &&& !accepted(last, record.hook, kind)
    }
}

/// What dispatching a call with `args` does to the pipeline `before`,
/// giving `after` and the outcome `out`. The stages and their order stay.
/// Arguments that fit the signature start a dispatch: every stage counts as
/// fired afterwards, and `out` is the outcome of running the stages that
/// took part. Arguments that do not fit leave the marks as they were and
/// give the zero value with a fault.
pub open spec fn dispatched<F: Fn(u64, &InvocationRecord, OutputSlot) -> Option<OutputSlot>>(
    before: Pipeline,
    signature: Signature,
    args: Arguments,
    run_stage: F,
    after: Pipeline,
    out: DispatchOutcome,
) -> bool {
    &&& after.hook() == before.hook()
    &&& after.stages() == before.stages()
    &&& after.order() == before.order()
    &&& if args.conforms(signature.params) {
        &&& after.fired() == Seq::new(before.stages().len(), |i: int| true)
        &&& exists|slots: Seq<OutputSlot>, last: Option<OutputSlot>|
            is_dispatch_of(
                run_stage,
                InvocationRecord { hook: before.hook(), args },
                signature.ret,
                run_list(before.stages(), before.order(), before.fired()),
                slots,
                last,
                out,
            )
    } else {
        &&& after.fired() == before.fired()
        &&& out.fault == Some(Fault::BadArguments)
        &&& out.ret == Value::zero_of(signature.ret)
        &&& out.log@ == Seq::<u64>::empty()
    }
}

/// Runs one intercepted call through the pipeline of its hook and returns
/// the value for the native caller.
///
/// The call gets a record of its own, made from `args`, and an output slot
/// of its own, which starts at the zero value of the return kind. The
/// stages that take part in this dispatch run one after the other, in
/// resolved order; `run_stage` is handed the stage's name, the record and
/// the slot as the stage before left it, and hands the slot back. The value
/// in the slot after the last stage is returned. The original function is
/// not called unless a stage does so.
///
/// A stage that hands back nothing, or a slot that is not of this call,
/// ends the dispatch: the caller gets the zero value, and the outcome names
/// the stage. Arguments that do not fit the signature are refused before
/// any stage runs, and leave the pipeline untouched.
pub fn dispatch<F>(
    pipeline: &mut Pipeline,
    signature: &Signature,
    args: Arguments,
    run_stage: F,
) -> (out: DispatchOutcome) where F: Fn(u64, &InvocationRecord, OutputSlot) -> Option<OutputSlot>
    requires
        forall|stage: u64, record: InvocationRecord, slot: OutputSlot|
            call_requires(run_stage, (stage, &record, slot)),
    ensures
        dispatched(*old(pipeline), *signature, args, run_stage, *final(pipeline), out),
{
    let hook = pipeline.hook_id();
    let kind = signature.ret;
    if !args.conforms_to(&signature.params) {
        return DispatchOutcome {
            ret: Value::zero(kind),
            log: Vec::new(),
            fault: Some(Fault::BadArguments),
        };
    }
    let record = InvocationRecord::new(hook, args);
    let plan = pipeline.begin_dispatch();
    run_plan(&plan, &record, kind, run_stage)
}

/// Runs the stages of `plan` one after the other on `record`, from the zero
/// slot of the return kind.
pub fn run_plan<F>(plan: &Vec<u64>, record: &InvocationRecord, kind: ValueKind, run_stage: F) -> (out:
    DispatchOutcome) where F: Fn(u64, &InvocationRecord, OutputSlot) -> Option<OutputSlot>
    requires
        forall|stage: u64, record: InvocationRecord, slot: OutputSlot|
            call_requires(run_stage, (stage, &record, slot)),
    ensures
        exists|slots: Seq<OutputSlot>, last: Option<OutputSlot>|
            is_dispatch_of(run_stage, *record, kind, plan@, slots, last, out),
{
    let hook = record.hook;
    let mut slot = OutputSlot::zero(hook, kind);
    let mut log: Vec<u64> = Vec::new();
    let ghost mut slots: Seq<OutputSlot> = seq![slot];
    let mut k: usize = 0;
    while k < plan.len()
        invariant
            forall|stage: u64, record: InvocationRecord, slot: OutputSlot|
                call_requires(run_stage, (stage, &record, slot)),
            k <= plan@.len(),
            log@ == plan@.take(k as int),
            slots.len() == k + 1,
            slots[k as int] == slot,
            slots[0] == OutputSlot::zero_of(hook, kind),
            record.hook == hook,
            forall|j: int|
                1 <= j <= k ==> call_ensures(
                    run_stage,
                    (plan@[j - 1], record, slots[j - 1]),
                    Some(#[trigger] slots[j]),
                ) && accepted(Some(slots[j]), hook, kind),
        decreases plan@.len() - k,
    {
        let stage = plan[k];
        log.push(stage);
        assert(log@ =~= plan@.take(k + 1));
        let res = run_stage(stage, record, slot);
        let next = match res {
            Some(next) => next,
            None => {
                let out = DispatchOutcome {
                    ret: Value::zero(kind),
                    log,
                    fault: Some(Fault::StageFailed { stage }),
                };
                assert(is_dispatch_of(run_stage, *record, kind, plan@, slots, res, out));
                return out;
            },
        };
        if next.hook != hook || next.ret.kind() != kind {
            let out = DispatchOutcome {
                ret: Value::zero(kind),
                log,
                fault: Some(Fault::StageFailed { stage }),
            };
            assert(is_dispatch_of(run_stage, *record, kind, plan@, slots, res, out));
            return out;
        }
        proof {
            let ghost before = slots;
            slots = slots.push(next);
            assert forall|j: int| 1 <= j <= k + 1 implies call_ensures(
                run_stage,
                (plan@[j - 1], record, slots[j - 1]),
                Some(#[trigger] slots[j]),
            ) && accepted(Some(slots[j]), hook, kind) by {
                if j <= k {
                    assert(slots[j] == before[j]);
                    assert(slots[j - 1] == before[j - 1]);
                }
            }
        }
        slot = next;
        k = k + 1;
    }
    assert(log@ =~= plan@);
    let out = DispatchOutcome { ret: slot.ret, log, fault: None };
    assert(is_dispatch_of(run_stage, *record, kind, plan@, slots, None, out));
    out
}

} // verus!
