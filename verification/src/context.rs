//! The context that owns everything about the hooks of one process: the
//! registry of patches and the pipeline of each hook.

use crate::dispatch::{dispatch, dispatched, DispatchOutcome, Fault};
use crate::pipeline::{refused, registered, Pipeline};
use crate::record::{Arguments, InvocationRecord, OutputSlot, Signature, Value};
use crate::registry::{
    admission, toggled, Detours, HookError, PatchAction, PatchRecord, Trampoline,
};
use crate::scheduler::{ScheduleError, Stage};
use vstd::prelude::*;

verus! {

/// The hooks of one process. Every operation on hooks goes through a
/// context; nothing is kept anywhere else, so two contexts do not know of
/// each other.
pub struct HookContext {
    detours: Detours,
    pipelines: Vec<Pipeline>,
}

/// The place of the first pipeline of the hook `id` in `pipelines`, or the
/// length of `pipelines` where the hook has none.
pub open spec fn pipeline_index(pipelines: Seq<Pipeline>, id: u64) -> int
    decreases pipelines.len(),
{
    if pipelines.len() == 0 || pipelines[0].hook() == id {
        0
    } else {
        1 + pipeline_index(pipelines.drop_first(), id)
    }
}

/// What registering `batch` for the hook `id` does to the pipelines
/// `before`, giving `after` and the result `r`. A hook that has a pipeline
/// gets the stages into it, and no other pipeline changes. A hook that has
/// none gets a new pipeline, last in the list, if the stages are accepted,
/// and nothing if they are not.
pub open spec fn registered_for(
    before: Seq<Pipeline>,
    id: u64,
    batch: Seq<Stage>,
    after: Seq<Pipeline>,
    r: Result<(), ScheduleError>,
) -> bool {
    let i = pipeline_index(before, id);
    if i < before.len() {
        &&& after.len() == before.len()
        &&& after == before.update(i, after[i])
        &&& after[i].hook() == id
        &&& registered(before[i], batch, after[i], r)
    } else {
        match r {
            Ok(()) => {
                &&& after.len() == before.len() + 1
                &&& after.take(before.len() as int) == before
                &&& after.last().hook() == id
                &&& after.last().stages() == batch
                &&& after.last().fired() == Seq::new(batch.len(), |i: int| false)
            },
            Err(e) => after == before && refused(batch, e),
        }
    }
}

/// What dispatching a call to the hook `id` does to the pipelines `before`,
/// given the hook's entry in the registry, if it has one.
///
/// A hook without an entry is not dispatched. A hook without a pipeline has
/// no stages: the call returns the zero value, or is refused where its
/// arguments do not fit. Otherwise the call is dispatched in the hook's
/// pipeline, and no other pipeline changes.
pub open spec fn dispatched_for<F: Fn(u64, &InvocationRecord, OutputSlot) -> Option<OutputSlot>>(
    entry: Option<PatchRecord>,
    before: Seq<Pipeline>,
    id: u64,
    args: Arguments,
    run_stage: F,
    after: Seq<Pipeline>,
    out: DispatchOutcome,
) -> bool {
    let i = pipeline_index(before, id);
    match entry {
        None => {
            &&& after == before
            &&& out.fault == Some(Fault::UnknownHook)
            &&& out.ret == Value::Unit
            &&& out.log@ == Seq::<u64>::empty()
        },
        Some(record) => {
            if i < before.len() {
                &&& after.len() == before.len()
                &&& after == before.update(i, after[i])
                &&& dispatched(before[i], record.signature, args, run_stage, after[i], out)
            } else {
                &&& after == before
                &&& out.log@ == Seq::<u64>::empty()
                &&& out.ret == Value::zero_of(record.signature.ret)
                &&& out.fault == (if args.conforms(record.signature.params) {
                    None
                } else {
                    Some(Fault::BadArguments)
                })
            }
        },
    }
}

impl HookContext {
    /// The entries of the registry.
    pub closed spec fn hooks(&self) -> Map<u64, PatchRecord> {
        self.detours@
    }

    /// The pipelines, in the order in which they came to be.
    pub closed spec fn pipelines(&self) -> Seq<Pipeline> {
        self.pipelines@
    }

    /// The entry of the hook `id` in the registry, if it has one.
    pub open spec fn entry(&self, id: u64) -> Option<PatchRecord> {
        if self.hooks().contains_key(id) {
            Some(self.hooks()[id])
        } else {
            None
        }
    }

    /// A context without hooks.
    pub fn new() -> (c: HookContext)
        ensures
            c.hooks() == Map::<u64, PatchRecord>::empty(),
            c.pipelines() == Seq::<Pipeline>::empty(),
    {
        HookContext { detours: Detours::new(), pipelines: Vec::new() }
    }

    /// Whether a hook `id` at `target` may be added, and if not, why.
    pub fn can_add_hook(&self, id: u64, target: usize) -> (r: Result<(), HookError>)
        ensures
            r == admission(self.hooks(), id, target),
    {
        self.detours.can_add(id, target)
    }

    /// Stores the patch of the hook `id`, disabled; see
    /// [`Detours::add_detour`].
    pub fn add_hook(
        &mut self,
        id: u64,
        target: usize,
        replacement: usize,
        trampoline: usize,
        signature: Signature,
    ) -> (r: Result<(), HookError>)
        ensures
            final(self).pipelines() == old(self).pipelines(),
            r == admission(old(self).hooks(), id, target),
            final(self).hooks() == (if r is Ok {
                old(self).hooks().insert(
                    id,
                    PatchRecord { target, replacement, trampoline, signature, enabled: false },
                )
            } else {
                old(self).hooks()
            }),
    {
        self.detours.add_detour(id, target, replacement, trampoline, signature)
    }

    /// Switches the redirect of the hook `id` on; see
    /// [`Detours::enable_detour`].
    pub fn enable_hook(&mut self, id: u64) -> (r: Result<PatchAction, HookError>)
        ensures
            final(self).pipelines() == old(self).pipelines(),
            toggled(old(self).hooks(), id, true, final(self).hooks(), r),
    {
        self.detours.enable_detour(id)
    }

    /// Switches the redirect of the hook `id` off; see
    /// [`Detours::disable_detour`].
    pub fn disable_hook(&mut self, id: u64) -> (r: Result<PatchAction, HookError>)
        ensures
            final(self).pipelines() == old(self).pipelines(),
            toggled(old(self).hooks(), id, false, final(self).hooks(), r),
    {
        self.detours.disable_detour(id)
    }

    /// Drops the entry of the hook `id`; see [`Detours::remove_detour`].
    /// The hook's pipeline stays: once the original bytes are back, no call
    /// reaches it.
    pub fn remove_hook(&mut self, id: u64) -> (r: Result<PatchRecord, HookError>)
        ensures
            final(self).pipelines() == old(self).pipelines(),
            final(self).hooks() == old(self).hooks().remove(id),
            r == (if old(self).hooks().contains_key(id) {
                Ok(old(self).hooks()[id])
            } else {
                Err(HookError::UnknownHook)
            }),
    {
        self.detours.remove_detour(id)
    }

    /// The entry of the hook `id` in the registry, if it has one.
    pub fn get_hook(&self, id: u64) -> (r: Option<PatchRecord>)
        ensures
            r == self.entry(id),
    {
        self.detours.get_detour(id)
    }

    /// Drops every entry of the registry and returns them, each once, in no
    /// particular order; see [`Detours::remove_all_detours`].
    pub fn remove_all_hooks(&mut self) -> (removed: Vec<(u64, PatchRecord)>)
        ensures
            final(self).pipelines() == old(self).pipelines(),
            final(self).hooks() == Map::<u64, PatchRecord>::empty(),
            forall|i: int|
                0 <= i < removed@.len() ==> old(self).hooks().contains_key(
                    (#[trigger] removed@[i]).0,
                ) && old(self).hooks()[removed@[i].0] == removed@[i].1,
            forall|i: int, j: int|
                0 <= i < j < removed@.len() ==> removed@[i].0 != removed@[j].0,
            forall|id: u64|
                old(self).hooks().contains_key(id) ==> exists|i: int|
                    0 <= i < removed@.len() && (#[trigger] removed@[i]).0 == id,
    {
        self.detours.remove_all_detours()
    }

    /// The callable original of the hook `id`; see
    /// [`Detours::get_detour_original`].
    pub fn get_original(&self, id: u64, signature: Signature) -> (r: Result<Trampoline, HookError>)
        ensures
            r == (if !self.hooks().contains_key(id) {
                Err(HookError::UnknownHook)
            } else if self.hooks()[id].signature != signature {
                Err(HookError::SignatureMismatch)
            } else {
                Ok(Trampoline { address: self.hooks()[id].trampoline, signature })
            }),
    {
        self.detours.get_detour_original(id, signature)
    }

    fn find_pipeline(&self, id: u64) -> (r: Option<usize>)
        ensures
            match r {
                Some(i) => i == pipeline_index(self.pipelines(), id) && i < self.pipelines().len()
                    && self.pipelines()[i as int].hook() == id,
                None => pipeline_index(self.pipelines(), id) == self.pipelines().len(),
            },
    {
        let mut i: usize = 0;
        while i < self.pipelines.len()
            invariant
                i <= self.pipelines@.len(),
                forall|j: int| 0 <= j < i ==> (#[trigger] self.pipelines@[j]).hook() != id,
            decreases self.pipelines@.len() - i,
        {
            if self.pipelines[i].hook_id() == id {
                proof {
                    lemma_pipeline_index(self.pipelines@, id, i as int);
                }
                return Some(i);
            }
            i = i + 1;
        }
        proof {
            lemma_pipeline_index(self.pipelines@, id, i as int);
        }
        None
    }

    /// The names of the stages of the hook `id` in running order; none
    /// where the hook has no pipeline.
    pub fn stage_order(&self, id: u64) -> (ids: Vec<u64>)
        ensures
            ids@ == ({
                let i = pipeline_index(self.pipelines(), id);
                if i < self.pipelines().len() {
                    crate::pipeline::ordered_ids(
                        self.pipelines()[i].stages(),
                        self.pipelines()[i].order(),
                    )
                } else {
                    Seq::<u64>::empty()
                }
            }),
    {
        match self.find_pipeline(id) {
            Some(i) => self.pipelines[i].stage_order(),
            None => Vec::new(),
        }
    }

    /// Registers one stage for the hook `id`; see
    /// [`HookContext::register_stages`].
    pub fn register_stage(&mut self, id: u64, stage: Stage) -> (r: Result<(), ScheduleError>)
        ensures
            final(self).hooks() == old(self).hooks(),
            registered_for(old(self).pipelines(), id, seq![stage], final(self).pipelines(), r),
    {
        let mut batch: Vec<Stage> = Vec::new();
        batch.push(stage);
        assert(batch@ =~= seq![stage]);
        self.register_stages(id, batch)
    }

    /// Registers a batch of stages for the hook `id` and resolves the
    /// running order of the hook's pipeline anew. Either the whole batch is
    /// taken or none of it; see [`Pipeline::register_stages`].
    pub fn register_stages(&mut self, id: u64, batch: Vec<Stage>) -> (r: Result<
        (),
        ScheduleError,
    >)
        ensures
            final(self).hooks() == old(self).hooks(),
            registered_for(old(self).pipelines(), id, batch@, final(self).pipelines(), r),
    {
        match self.find_pipeline(id) {
            Some(i) => {
                let mut pipeline = self.pipelines.remove(i);
                let r = pipeline.register_stages(batch);
                let ghost after = pipeline;
                self.pipelines.insert(i, pipeline);
                assert(self.pipelines@ =~= old(self).pipelines().update(i as int, after));
                r
            },
            None => {
                let mut pipeline = Pipeline::new(id);
                let r = pipeline.register_stages(batch);
                match r {
                    Ok(()) => {
                        assert(pipeline.stages() =~= batch@);
                        assert(pipeline.fired() =~= Seq::new(batch@.len(), |i: int| false));
                        self.pipelines.push(pipeline);
                        assert(self.pipelines@.take(old(self).pipelines().len() as int) =~= old(
                            self,
                        ).pipelines());
                        Ok(())
                    },
                    Err(e) => {
                        assert(Seq::<Stage>::empty() + batch@ =~= batch@);
                        Err(e)
                    },
                }
            },
        }
    }

    /// Runs one intercepted call to the hook `id` through the hook's
    /// pipeline and returns the value for the native caller, which has the
    /// kind that the registry holds for the hook; see [`dispatch`].
    pub fn dispatch<F>(&mut self, id: u64, args: Arguments, run_stage: F) -> (out:
        DispatchOutcome) where F: Fn(u64, &InvocationRecord, OutputSlot) -> Option<OutputSlot>
        requires
            forall|stage: u64, record: InvocationRecord, slot: OutputSlot|
                call_requires(run_stage, (stage, &record, slot)),
        ensures
            final(self).hooks() == old(self).hooks(),
            dispatched_for(
                old(self).entry(id),
                old(self).pipelines(),
                id,
                args,
                run_stage,
                final(self).pipelines(),
                out,
            ),
    {
        let record = match self.detours.get_detour(id) {
            Some(record) => record,
            None => {
                return DispatchOutcome {
                    ret: Value::Unit,
                    log: Vec::new(),
                    fault: Some(Fault::UnknownHook),
                };
            },
        };
        match self.find_pipeline(id) {
            Some(i) => {
                let mut pipeline = self.pipelines.remove(i);
                let out = dispatch(&mut pipeline, &record.signature, args, run_stage);
                let ghost after = pipeline;
                self.pipelines.insert(i, pipeline);
                assert(self.pipelines@ =~= old(self).pipelines().update(i as int, after));
                out
            },
            None => {
                let fault = if args.conforms_to(&record.signature.params) {
                    None
                } else {
                    Some(Fault::BadArguments)
                };
                DispatchOutcome { ret: Value::zero(record.signature.ret), log: Vec::new(), fault }
            },
        }
    }
}

/// The first pipeline of a hook stands at the place before which no
/// pipeline of the hook stands, and at which one does or the list ends.
proof fn lemma_pipeline_index(pipelines: Seq<Pipeline>, id: u64, i: int)
    requires
        0 <= i <= pipelines.len(),
        i < pipelines.len() ==> pipelines[i].hook() == id,
        forall|j: int| 0 <= j < i ==> (#[trigger] pipelines[j]).hook() != id,
    ensures
        pipeline_index(pipelines, id) == i,
    decreases i,
{
    if i > 0 {
        let rest = pipelines.drop_first();
        assert(pipelines[0].hook() != id);
        assert forall|j: int| 0 <= j < i - 1 implies (#[trigger] rest[j]).hook() != id by {
            assert(rest[j] == pipelines[j + 1]);
        }
        if i < pipelines.len() {
            assert(rest[i - 1] == pipelines[i]);
        }
        lemma_pipeline_index(rest, id, i - 1);
    }
}

} // verus!
