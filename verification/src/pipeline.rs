//! The pipeline of one hook: its stages, their resolved order, and which
//! run-once stages have fired.

use crate::scheduler::{
    ids_distinct, is_consistent_order, is_resolved_order, resolve_order, run_list, runs,
    RunPredicate, ScheduleError, Stage,
};
use vstd::prelude::*;

verus! {

/// The stages registered for one hook identity, in resolved order.
#[derive(Debug)]
pub struct Pipeline {
    hook: u64,
    stages: Vec<Stage>,
    order: Vec<usize>,
    fired: Vec<bool>,
}

/// The names of the stages in running order.
pub open spec fn ordered_ids(stages: Seq<Stage>, order: Seq<usize>) -> Seq<u64> {
    Seq::new(order.len(), |p: int| stages[order[p] as int].id)
}

/// The first name that two stages share, if any do.
fn first_duplicate(stages: &Vec<Stage>) -> (r: Option<u64>)
    ensures
        r is None <==> ids_distinct(stages@),
        r matches Some(id) ==> exists|i: int, j: int|
            0 <= i < j < stages@.len() && stages@[i].id == id && stages@[j].id == id,
{
    let n = stages.len();
    let mut j: usize = 0;
    while j < n
        invariant
            n == stages@.len(),
            j <= n,
            forall|a: int, b: int| 0 <= a < b < j ==> stages@[a].id != stages@[b].id,
        decreases n - j,
    {
        let mut i: usize = 0;
        while i < j
            invariant
                n == stages@.len(),
                i <= j < n,
                forall|a: int| 0 <= a < i ==> stages@[a].id != stages@[j as int].id,
            decreases j - i,
        {
            if stages[i].id == stages[j].id {
                return Some(stages[j].id);
            }
            i = i + 1;
        }
        j = j + 1;
    }
    None
}

/// A list that holds `value` `n` times.
fn repeated(value: bool, n: usize) -> (v: Vec<bool>)
    ensures
        v@ == Seq::new(n as nat, |i: int| value),
{
    let mut v: Vec<bool> = Vec::new();
    while v.len() < n
        invariant
            v@.len() <= n,
            forall|i: int| 0 <= i < v@.len() ==> v@[i] == value,
        decreases n - v@.len(),
    {
        v.push(value);
    }
    assert(v@ =~= Seq::new(n as nat, |i: int| value));
    v
}

impl Pipeline {
    /// The hook identity that the pipeline belongs to.
    pub closed spec fn hook(&self) -> u64 {
        self.hook
    }

    /// The stages in the order in which they were registered.
    pub closed spec fn stages(&self) -> Seq<Stage> {
        self.stages@
    }

    /// The running order, as indices into `stages`.
    pub closed spec fn order(&self) -> Seq<usize> {
        self.order@
    }

    /// For each stage, whether it has taken part in a dispatch.
    pub closed spec fn fired(&self) -> Seq<bool> {
        self.fired@
    }

    /// What holds of every pipeline: the names are distinct, the order is
    /// the resolved order of the stages, and every stage has its mark.
    pub open spec fn well_ordered(&self) -> bool {
        &&& ids_distinct(self.stages())
        &&& is_resolved_order(self.stages(), self.order())
        &&& self.fired().len() == self.stages().len()
    }

    #[verifier::type_invariant]
    spec fn wf(&self) -> bool {
        self.well_ordered()
    }

    /// A pipeline without stages.
    pub fn new(hook: u64) -> (p: Pipeline)
        ensures
            p.well_ordered(),
            p.hook() == hook,
            p.stages() == Seq::<Stage>::empty(),
            p.order() == Seq::<usize>::empty(),
            p.fired() == Seq::<bool>::empty(),
    {
        Pipeline { hook, stages: Vec::new(), order: Vec::new(), fired: Vec::new() }
    }

    /// The hook identity that the pipeline belongs to.
    pub fn hook_id(&self) -> (id: u64)
        ensures
            id == self.hook(),
    {
        self.hook
    }

    /// The number of stages.
    pub fn len(&self) -> (n: usize)
        ensures
            n == self.stages().len(),
    {
        self.stages.len()
    }

    /// The names of the stages in running order.
    pub fn stage_order(&self) -> (ids: Vec<u64>)
        ensures
            self.well_ordered(),
            ids@ == ordered_ids(self.stages(), self.order()),
    {
        proof {
            use_type_invariant(self);
        }
        let mut ids: Vec<u64> = Vec::new();
        let mut p: usize = 0;
        while p < self.order.len()
            invariant
                self.wf(),
                p <= self.order@.len(),
                ids@ == ordered_ids(self.stages@, self.order@.take(p as int)),
            decreases self.order@.len() - p,
        {
            let i = self.order[p];
            ids.push(self.stages[i].id);
            p = p + 1;
            assert(ids@ =~= ordered_ids(self.stages@, self.order@.take(p as int)));
        }
        assert(self.order@.take(p as int) =~= self.order@);
        ids
    }

    /// Registers one stage; see [`Pipeline::register_stages`].
    pub fn register_stage(&mut self, stage: Stage) -> (r: Result<(), ScheduleError>)
        ensures
            final(self).well_ordered(),
            final(self).hook() == old(self).hook(),
            registered(*old(self), seq![stage], *final(self), r),
    {
        let mut batch: Vec<Stage> = Vec::new();
        batch.push(stage);
        assert(batch@ =~= seq![stage]);
        self.register_stages(batch)
    }

    /// Registers a batch of stages with their constraints and resolves the
    /// running order anew. New stages have not fired.
    ///
    /// Either the whole batch is taken or none of it: the call fails, and
    /// leaves the pipeline as it was, when a name would occur twice or when
    /// no order satisfies every constraint.
    pub fn register_stages(&mut self, batch: Vec<Stage>) -> (r: Result<(), ScheduleError>)
        ensures
            final(self).well_ordered(),
            final(self).hook() == old(self).hook(),
            registered(*old(self), batch@, *final(self), r),
    {
        let mut taken = Pipeline::new(self.hook);
        core::mem::swap(self, &mut taken);
        proof {
            use_type_invariant(&taken);
        }
        let Pipeline { hook, stages, order, fired } = taken;
        let mut stages = stages;
        let mut fired = fired;
        let kept = stages.len();
        let added = batch.len();
        let mut batch = batch;
        stages.append(&mut batch);
        if let Some(id) = first_duplicate(&stages) {
            stages.truncate(kept);
            assert(stages@ =~= old(self).stages());
            *self = Pipeline { hook, stages, order, fired };
            return Err(ScheduleError::DuplicateStage { id });
        }
        match resolve_order(&stages) {
            Err(e) => {
                stages.truncate(kept);
                assert(stages@ =~= old(self).stages());
                *self = Pipeline { hook, stages, order, fired };
                Err(e)
            },
            Ok(resolved) => {
                let mut fresh = repeated(false, added);
                fired.append(&mut fresh);
                *self = Pipeline { hook, stages, order: resolved, fired };
                Ok(())
            },
        }
    }

    /// Starts a dispatch: returns the names of the stages that take part in
    /// it, in running order, and marks every stage as fired. A run-once
    /// stage that has fired keeps its place in the order and is left out.
    pub fn begin_dispatch(&mut self) -> (plan: Vec<u64>)
        ensures
            final(self).well_ordered(),
            final(self).hook() == old(self).hook(),
            final(self).stages() == old(self).stages(),
            final(self).order() == old(self).order(),
            final(self).fired() == Seq::new(old(self).stages().len(), |i: int| true),
            plan@ == run_list(old(self).stages(), old(self).order(), old(self).fired()),
    {
        proof {
            use_type_invariant(&*self);
        }
        let mut plan: Vec<u64> = Vec::new();
        let n = self.order.len();
        let mut p: usize = 0;
        while p < n
            invariant
                *self == *old(self),
                self.wf(),
                n == self.order@.len(),
                p <= n,
                plan@ == run_list(self.stages@, self.order@.take(p as int), self.fired@),
            decreases n - p,
        {
            let i = self.order[p];
            proof {
                let next = self.order@.take(p + 1);
                assert(next.drop_last() =~= self.order@.take(p as int));
                assert(next.last() == i);
            }
            let takes_part = match self.stages[i].run {
                RunPredicate::Always => true,
                RunPredicate::Once => !self.fired[i],
            };
            if takes_part {
                plan.push(self.stages[i].id);
            }
            p = p + 1;
        }
        assert(self.order@.take(n as int) =~= self.order@);
        self.fired = repeated(true, self.stages.len());
        plan
    }
}

/// Why the stages `combined` cannot form a pipeline: two of them carry the
/// name that the error gives, or the names are distinct and no order
/// satisfies every constraint.
pub open spec fn refused(combined: Seq<Stage>, e: ScheduleError) -> bool {
    match e {
        ScheduleError::DuplicateStage { id } => exists|i: int, j: int|
            0 <= i < j < combined.len() && combined[i].id == id && combined[j].id == id,
        ScheduleError::CyclicConstraint => {
            &&& ids_distinct(combined)
            &&& forall|order: Seq<usize>| !is_consistent_order(combined, order)
        },
    }
}

/// What registering `batch` does to a pipeline `before`, giving `after` and
/// the result `r`.
pub open spec fn registered(
    before: Pipeline,
    batch: Seq<Stage>,
    after: Pipeline,
    r: Result<(), ScheduleError>,
) -> bool {
    match r {
        Ok(()) => {
            &&& after.stages() == before.stages() + batch
            &&& after.fired() == before.fired() + Seq::new(batch.len(), |i: int| false)
        },
        Err(e) => {
            &&& after.stages() == before.stages()
            &&& after.order() == before.order()
            &&& after.fired() == before.fired()
            &&& refused(before.stages() + batch, e)
        },
    }
}

/// On a dispatch before which no stage has fired, every stage takes part.
pub proof fn lemma_first_dispatch_runs_all(stages: Seq<Stage>, order: Seq<usize>, fired: Seq<bool>)
    requires
        forall|p: int| 0 <= p < order.len() ==> #[trigger] order[p] < fired.len(),
        forall|i: int| 0 <= i < fired.len() ==> !fired[i],
    ensures
        run_list(stages, order, fired) == ordered_ids(stages, order),
    decreases order.len(),
{
    if order.len() > 0 {
        lemma_first_dispatch_runs_all(stages, order.drop_last(), fired);
        assert(!fired[order.last() as int]);
    }
    assert(run_list(stages, order, fired) =~= ordered_ids(stages, order));
}

/// A run-once stage that has fired takes part in no later dispatch: every
/// name in the run list then belongs to a stage of the order that runs
/// always, or that has not fired.
pub proof fn lemma_run_list_members(
    stages: Seq<Stage>,
    order: Seq<usize>,
    fired: Seq<bool>,
    k: int,
)
    requires
        0 <= k < run_list(stages, order, fired).len(),
    ensures
        exists|p: int|
            0 <= p < order.len() && stages[#[trigger] order[p] as int].id == run_list(
                stages,
                order,
                fired,
            )[k] && runs(stages[order[p] as int], fired[order[p] as int]),
    decreases order.len(),
{
    let rest = run_list(stages, order.drop_last(), fired);
    let i = order.last() as int;
    if k < rest.len() {
        lemma_run_list_members(stages, order.drop_last(), fired, k);
        let p = choose|p: int|
            0 <= p < order.drop_last().len() && stages[#[trigger] order.drop_last()[p] as int].id
                == rest[k] && runs(
                stages[order.drop_last()[p] as int],
                fired[order.drop_last()[p] as int],
            );
        assert(order[p] == order.drop_last()[p]);
    } else {
        assert(order[order.len() - 1] == order.last());
    }
}

/// A stage that runs always takes part in every dispatch.
pub proof fn lemma_always_stage_runs(
    stages: Seq<Stage>,
    order: Seq<usize>,
    fired: Seq<bool>,
    p: int,
)
    requires
        0 <= p < order.len(),
        stages[order[p] as int].run == RunPredicate::Always,
    ensures
        run_list(stages, order, fired).contains(stages[order[p] as int].id),
    decreases order.len(),
{
    let rest = run_list(stages, order.drop_last(), fired);
    let full = run_list(stages, order, fired);
    if p == order.len() - 1 {
        assert(full == rest.push(stages[order[p] as int].id));
        assert(full[rest.len() as int] == stages[order[p] as int].id);
    } else {
        lemma_run_list_members_kept(stages, order, fired);
        lemma_always_stage_runs(stages, order.drop_last(), fired, p);
        let k = choose|k: int| 0 <= k < rest.len() && rest[k] == stages[order[p] as int].id;
        assert(full[k] == rest[k]);
    }
}

/// The run list of a longer order begins with the run list of the shorter.
proof fn lemma_run_list_members_kept(stages: Seq<Stage>, order: Seq<usize>, fired: Seq<bool>)
    requires
        order.len() > 0,
    ensures
        run_list(stages, order.drop_last(), fired).is_prefix_of(run_list(stages, order, fired)),
{
}

} // verus!
