//! Stages, their ordering constraints, and the order in which a pipeline
//! runs them.

use vstd::prelude::*;

verus! {

/// When a stage takes part in a dispatch.
#[derive(Clone, Copy, Debug, PartialEq, Eq, Structural)]
pub enum RunPredicate {
    /// On every dispatch.
    Always,
    /// On the first dispatch after it was registered, and never again.
    Once,
}

/// Why a set of stages was not accepted.
#[derive(Clone, Copy, Debug, PartialEq, Eq, Structural)]
pub enum ScheduleError {
    /// No order of the stages satisfies every constraint.
    CyclicConstraint,
    /// Two stages carry this name.
    DuplicateStage { id: u64 },
}

/// A named unit of pipeline logic with its ordering constraints. `before`
/// and `after` name other stages of the same pipeline; a name that no stage
/// of the pipeline carries constrains nothing.
#[derive(Debug)]
pub struct Stage {
    pub id: u64,
    pub before: Vec<u64>,
    pub after: Vec<u64>,
    pub run: RunPredicate,
}

impl Stage {
    /// A stage without constraints.
    pub fn new(id: u64, run: RunPredicate) -> (s: Stage)
        ensures
            s.id == id,
            s.run == run,
            s.before@ == Seq::<u64>::empty(),
            s.after@ == Seq::<u64>::empty(),
    {
        Stage { id, before: Vec::new(), after: Vec::new(), run }
    }

    /// The same stage, which in addition has to run before the stage `other`.
    pub fn before(self, other: u64) -> (s: Stage)
        ensures
            s.id == self.id,
            s.run == self.run,
            s.before@ == self.before@.push(other),
            s.after@ == self.after@,
    {
        let mut s = self;
        s.before.push(other);
        s
    }

    /// The same stage, which in addition has to run after the stage `other`.
    pub fn after(self, other: u64) -> (s: Stage)
        ensures
            s.id == self.id,
            s.run == self.run,
            s.before@ == self.before@,
            s.after@ == self.after@.push(other),
    {
        let mut s = self;
        s.after.push(other);
        s
    }
}

/// Stage `a` has to run before stage `b`: `a` lists `b` under `before`, or
/// `b` lists `a` under `after`.
pub open spec fn precedes(stages: Seq<Stage>, a: int, b: int) -> bool {
    stages[a].before@.contains(stages[b].id) || stages[b].after@.contains(stages[a].id)
}

/// Stage `i` stands somewhere in `order`.
pub open spec fn occurs(order: Seq<usize>, i: int) -> bool {
    exists|p: int| 0 <= p < order.len() && #[trigger] order[p] == i
}

/// `order` runs every stage exactly once and respects every constraint.
pub open spec fn is_consistent_order(stages: Seq<Stage>, order: Seq<usize>) -> bool {
    &&& order.len() == stages.len()
    &&& forall|p: int| 0 <= p < order.len() ==> #[trigger] order[p] < stages.len()
    &&& forall|i: int| 0 <= i < stages.len() ==> #[trigger] occurs(order, i)
    &&& forall|p: int, q: int| 0 <= p < q < order.len() ==> order[p] != order[q]
    &&& forall|p: int, q: int|
        0 <= p < order.len() && 0 <= q < order.len() && #[trigger] precedes(
            stages,
            order[p] as int,
            order[q] as int,
        ) ==> p < q
}

/// Every stage that has to run before stage `i` is among `done`.
pub open spec fn ready(stages: Seq<Stage>, done: Seq<usize>, i: int) -> bool {
    forall|j: int|
        0 <= j < stages.len() && #[trigger] precedes(stages, j, i) ==> occurs(done, j)
}

/// `order` is the resolved order of `stages`: it is consistent, and each
/// position holds the earliest-registered stage that had not run yet and
/// whose predecessors had all run.
pub open spec fn is_resolved_order(stages: Seq<Stage>, order: Seq<usize>) -> bool {
    &&& is_consistent_order(stages, order)
    &&& forall|p: int, i: int|
        0 <= p < order.len() && 0 <= i < #[trigger] order[p] ==> occurs(order.take(p), i)
            || !#[trigger] ready(stages, order.take(p), i)
}

/// No two stages carry the same name.
pub open spec fn ids_distinct(stages: Seq<Stage>) -> bool {
    forall|i: int, j: int| 0 <= i < j < stages.len() ==> stages[i].id != stages[j].id
}

/// Whether a stage takes part in a dispatch, given whether it has done so
/// before.
pub open spec fn runs(stage: Stage, fired: bool) -> bool {
    stage.run == RunPredicate::Always || !fired
}

/// The names of the stages that take part in a dispatch, in running order:
/// `order` without the run-once stages that have fired.
pub open spec fn run_list(stages: Seq<Stage>, order: Seq<usize>, fired: Seq<bool>) -> Seq<u64>
    decreases order.len(),
{
    if order.len() == 0 {
        Seq::empty()
    } else {
        let rest = run_list(stages, order.drop_last(), fired);
        let i = order.last() as int;
        if runs(stages[i], fired[i]) {
            rest.push(stages[i].id)
        } else {
            rest
        }
    }
}

spec fn count_true(s: Seq<bool>) -> nat
    decreases s.len(),
{
    if s.len() == 0 {
        0
    } else {
        count_true(s.drop_last()) + if s.last() {
            1nat
        } else {
            0nat
        }
    }
}

proof fn lemma_count_true_bound(s: Seq<bool>)
    ensures
        count_true(s) <= s.len(),
        count_true(s) == s.len() ==> forall|i: int| 0 <= i < s.len() ==> s[i],
        count_true(s) < s.len() ==> exists|i: int| 0 <= i < s.len() && !s[i],
    decreases s.len(),
{
    if s.len() > 0 {
        let t = s.drop_last();
        lemma_count_true_bound(t);
        if count_true(s) == s.len() {
            assert forall|i: int| 0 <= i < s.len() implies s[i] by {
                if i < t.len() {
                    assert(t[i] == s[i]);
                }
            }
        }
        if count_true(s) < s.len() {
            if s.last() {
                let i = choose|i: int| 0 <= i < t.len() && !t[i];
                assert(!s[i]);
            } else {
                assert(!s[s.len() - 1]);
            }
        }
    }
}

proof fn lemma_count_true_set(s: Seq<bool>, i: int)
    requires
        0 <= i < s.len(),
        !s[i],
    ensures
        count_true(s.update(i, true)) == count_true(s) + 1,
    decreases s.len(),
{
    let u = s.update(i, true);
    if i == s.len() - 1 {
        assert(u.drop_last() =~= s.drop_last());
    } else {
        lemma_count_true_set(s.drop_last(), i);
        assert(u.drop_last() =~= s.drop_last().update(i, true));
    }
}

proof fn lemma_count_true_none(s: Seq<bool>)
    requires
        forall|i: int| 0 <= i < s.len() ==> !s[i],
    ensures
        count_true(s) == 0,
    decreases s.len(),
{
    if s.len() > 0 {
        lemma_count_true_none(s.drop_last());
    }
}

/// In a consistent order every stage whose predecessors are stuck behind
/// one another would have to come before itself.
proof fn lemma_positions_placed(
    stages: Seq<Stage>,
    placed: Seq<bool>,
    sigma: Seq<usize>,
    p: int,
)
    requires
        placed.len() == stages.len(),
        is_consistent_order(stages, sigma),
        forall|i: int|
            0 <= i < stages.len() && !#[trigger] placed[i] ==> exists|j: int|
                0 <= j < stages.len() && !placed[j] && #[trigger] precedes(stages, j, i),
        0 <= p < sigma.len(),
    ensures
        placed[sigma[p] as int],
    decreases p,
{
    let x = sigma[p] as int;
    if !placed[x] {
        let j = choose|j: int|
            0 <= j < stages.len() && !placed[j] && #[trigger] precedes(stages, j, x);
        assert(occurs(sigma, j));
        let q = choose|q: int| 0 <= q < sigma.len() && #[trigger] sigma[q] == j;
        assert(precedes(stages, sigma[q] as int, sigma[p] as int));
        assert(q < p);
        lemma_positions_placed(stages, placed, sigma, q);
    }
}

/// When stages remain and each of them waits for another that remains, no
/// consistent order exists.
proof fn lemma_stuck_has_no_order(stages: Seq<Stage>, placed: Seq<bool>, sigma: Seq<usize>)
    requires
        placed.len() == stages.len(),
        forall|i: int|
            0 <= i < stages.len() && !#[trigger] placed[i] ==> exists|j: int|
                0 <= j < stages.len() && !placed[j] && #[trigger] precedes(stages, j, i),
        exists|r: int| 0 <= r < stages.len() && !placed[r],
    ensures
        !is_consistent_order(stages, sigma),
{
    if is_consistent_order(stages, sigma) {
        let r = choose|r: int| 0 <= r < stages.len() && !placed[r];
        assert(occurs(sigma, r));
        let p = choose|p: int| 0 <= p < sigma.len() && #[trigger] sigma[p] == r;
        lemma_positions_placed(stages, placed, sigma, p);
    }
}

/// A constraint holds in every consistent order: if `a` has to run before
/// `b`, both stages run, and wherever they stand, `a` stands first. A chain
/// of constraints therefore runs in chain order, however the stages were
/// registered.
pub proof fn lemma_constraint_is_respected(stages: Seq<Stage>, order: Seq<usize>, a: int, b: int)
    requires
        is_consistent_order(stages, order),
        0 <= a < stages.len(),
        0 <= b < stages.len(),
        precedes(stages, a, b),
    ensures
        occurs(order, a),
        occurs(order, b),
        forall|p: int, q: int|
            0 <= p < order.len() && 0 <= q < order.len() && order[p] == a && order[q] == b ==> p
                < q,
{
    assert(occurs(order, a));
    assert(occurs(order, b));
    assert forall|p: int, q: int|
        0 <= p < order.len() && 0 <= q < order.len() && order[p] == a && order[q] == b implies p
        < q by {
        assert(precedes(stages, order[p] as int, order[q] as int));
    }
}

/// Two stages that each have to run before the other admit no order at all.
/// A stage that has to run before itself is the case `a == b`.
pub proof fn lemma_mutual_constraints_have_no_order(
    stages: Seq<Stage>,
    order: Seq<usize>,
    a: int,
    b: int,
)
    requires
        0 <= a < stages.len(),
        0 <= b < stages.len(),
        precedes(stages, a, b),
        precedes(stages, b, a),
    ensures
        !is_consistent_order(stages, order),
{
    if is_consistent_order(stages, order) {
        assert(occurs(order, a));
        assert(occurs(order, b));
        let p = choose|p: int| 0 <= p < order.len() && #[trigger] order[p] == a;
        let q = choose|q: int| 0 <= q < order.len() && #[trigger] order[q] == b;
        assert(precedes(stages, order[p] as int, order[q] as int));
        assert(precedes(stages, order[q] as int, order[p] as int));
    }
}

/// The resolved order is a function of the stages: two resolved orders of
/// the same stages are the same order.
pub proof fn lemma_resolved_order_is_unique(stages: Seq<Stage>, a: Seq<usize>, b: Seq<usize>)
    requires
        is_resolved_order(stages, a),
        is_resolved_order(stages, b),
    ensures
        a == b,
{
    lemma_resolved_prefix_agrees(stages, a, b, a.len() as int);
    assert(a =~= b);
}

proof fn lemma_resolved_prefix_agrees(stages: Seq<Stage>, a: Seq<usize>, b: Seq<usize>, k: int)
    requires
        is_resolved_order(stages, a),
        is_resolved_order(stages, b),
        0 <= k <= a.len(),
    ensures
        forall|i: int| 0 <= i < k ==> a[i] == b[i],
    decreases k,
{
    if k > 0 {
        lemma_resolved_prefix_agrees(stages, a, b, k - 1);
        let p = k - 1;
        assert(a.take(p) =~= b.take(p));
        lemma_next_is_ready_and_new(stages, a, p);
        lemma_next_is_ready_and_new(stages, b, p);
        if a[p] < b[p] {
            assert(occurs(b.take(p), a[p] as int) || !ready(stages, b.take(p), a[p] as int));
        }
        if b[p] < a[p] {
            assert(occurs(a.take(p), b[p] as int) || !ready(stages, a.take(p), b[p] as int));
        }
    }
}

/// In a consistent order the stage at position `p` is not among the stages
/// before it, and all its predecessors are.
proof fn lemma_next_is_ready_and_new(stages: Seq<Stage>, order: Seq<usize>, p: int)
    requires
        is_consistent_order(stages, order),
        0 <= p < order.len(),
    ensures
        !occurs(order.take(p), order[p] as int),
        ready(stages, order.take(p), order[p] as int),
{
    let done = order.take(p);
    if occurs(done, order[p] as int) {
        let q = choose|q: int| 0 <= q < done.len() && #[trigger] done[q] == order[p];
        assert(order[q] == order[p]);
    }
    assert forall|j: int| 0 <= j < stages.len() && #[trigger] precedes(stages, j, order[p] as int)
    implies occurs(done, j) by {
        assert(occurs(order, j));
        let q = choose|q: int| 0 <= q < order.len() && #[trigger] order[q] == j;
        assert(precedes(stages, order[q] as int, order[p] as int));
        assert(done[q] == j);
    }
}

fn contains_id(list: &Vec<u64>, id: u64) -> (r: bool)
    ensures
        r == list@.contains(id),
{
    let mut k: usize = 0;
    while k < list.len()
        invariant
            k <= list@.len(),
            forall|m: int| 0 <= m < k ==> list@[m] != id,
        decreases list@.len() - k,
    {
        if list[k] == id {
            return true;
        }
        k = k + 1;
    }
    false
}

fn stage_precedes(stages: &Vec<Stage>, a: usize, b: usize) -> (r: bool)
    requires
        a < stages@.len(),
        b < stages@.len(),
    ensures
        r == precedes(stages@, a as int, b as int),
{
    contains_id(&stages[a].before, stages[b].id) || contains_id(&stages[b].after, stages[a].id)
}

/// `placed` marks exactly the stages that stand in `order`.
spec fn marks(placed: Seq<bool>, order: Seq<usize>) -> bool {
    &&& forall|i: int| 0 <= i < placed.len() && #[trigger] placed[i] ==> occurs(order, i)
    &&& forall|p: int| 0 <= p < order.len() ==> #[trigger] order[p] < placed.len() && placed[order[p] as int]
}

/// Whether every predecessor of stage `i` is marked in `placed`.
fn is_ready(stages: &Vec<Stage>, placed: &Vec<bool>, i: usize, Ghost(order): Ghost<Seq<usize>>) -> (r: bool)
    requires
        i < stages@.len(),
        placed@.len() == stages@.len(),
        marks(placed@, order),
    ensures
        r == ready(stages@, order, i as int),
{
    let n = stages.len();
    let mut j: usize = 0;
    while j < n
        invariant
            n == stages@.len(),
            placed@.len() == n,
            i < n,
            j <= n,
            marks(placed@, order),
            forall|m: int|
                0 <= m < j && #[trigger] precedes(stages@, m, i as int) ==> occurs(order, m),
        decreases n - j,
    {
        if !placed[j] && stage_precedes(stages, j, i) {
            proof {
                if occurs(order, j as int) {
                    let q = choose|q: int| 0 <= q < order.len() && #[trigger] order[q] == j;
                    assert(placed@[order[q] as int]);
                }
            }
            return false;
        }
        j = j + 1;
    }
    true
}

/// The first stage that is not marked and is ready, if there is one.
fn first_ready(stages: &Vec<Stage>, placed: &Vec<bool>, Ghost(order): Ghost<Seq<usize>>) -> (found:
    Option<usize>)
    requires
        placed@.len() == stages@.len(),
        marks(placed@, order),
    ensures
        match found {
            Some(x) => {
                &&& x < stages@.len()
                &&& !placed@[x as int]
                &&& ready(stages@, order, x as int)
                &&& forall|m: int|
                    0 <= m < x ==> #[trigger] placed@[m] || !ready(stages@, order, m)
            },
            None => forall|m: int|
                0 <= m < stages@.len() ==> #[trigger] placed@[m] || !ready(stages@, order, m),
        },
{
    let n = stages.len();
    let mut i: usize = 0;
    while i < n
        invariant
            n == stages@.len(),
            placed@.len() == n,
            i <= n,
            marks(placed@, order),
            forall|m: int| 0 <= m < i ==> #[trigger] placed@[m] || !ready(stages@, order, m),
        decreases n - i,
    {
        if !placed[i] && is_ready(stages, placed, i, Ghost(order)) {
            return Some(i);
        }
        i = i + 1;
    }
    None
}

/// The facts that hold of the stages placed so far.
spec fn partial_order(stages: Seq<Stage>, order: Seq<usize>) -> bool {
    &&& forall|p: int| 0 <= p < order.len() ==> #[trigger] order[p] < stages.len()
    &&& forall|p: int, q: int| 0 <= p < q < order.len() ==> order[p] != order[q]
    &&& forall|p: int|
        0 <= p < order.len() ==> #[trigger] ready(stages, order.take(p), order[p] as int)
    &&& forall|p: int, i: int|
        0 <= p < order.len() && 0 <= i < #[trigger] order[p] ==> occurs(order.take(p), i)
            || !#[trigger] ready(stages, order.take(p), i)
}

/// Placing the first ready stage keeps the facts of `partial_order`.
proof fn lemma_place(stages: Seq<Stage>, placed: Seq<bool>, order: Seq<usize>, x: usize)
    requires
        placed.len() == stages.len(),
        marks(placed, order),
        partial_order(stages, order),
        x < stages.len(),
        !placed[x as int],
        ready(stages, order, x as int),
        forall|m: int| 0 <= m < x ==> #[trigger] placed[m] || !ready(stages, order, m),
    ensures
        marks(placed.update(x as int, true), order.push(x)),
        partial_order(stages, order.push(x)),
{
    let after = order.push(x);
    let n = order.len() as int;
    assert(after.take(n) =~= order);
    assert(after[n] == x);
    assert forall|i: int|
        0 <= i < placed.len() && #[trigger] placed.update(x as int, true)[i] implies occurs(
        after,
        i,
    ) by {
        if i != x {
            let q = choose|q: int| 0 <= q < order.len() && #[trigger] order[q] == i;
            assert(after[q] == i);
        }
    }
    assert forall|p: int, q: int| 0 <= p < q < after.len() implies after[p] != after[q] by {
        if q == n {
            assert(placed[order[p] as int]);
        }
    }
    assert forall|p: int| 0 <= p < after.len() implies #[trigger] ready(
        stages,
        after.take(p),
        after[p] as int,
    ) by {
        if p < n {
            assert(after.take(p) =~= order.take(p));
        }
    }
    assert forall|p: int, i: int|
        0 <= p < after.len() && 0 <= i < #[trigger] after[p] implies occurs(after.take(p), i)
        || !#[trigger] ready(stages, after.take(p), i) by {
        if p < n {
            assert(after.take(p) =~= order.take(p));
        } else {
            assert(placed[i] || !ready(stages, order, i));
        }
    }
}

/// Once every stage is placed, the facts of `partial_order` make the order
/// the resolved one.
proof fn lemma_complete(stages: Seq<Stage>, placed: Seq<bool>, order: Seq<usize>)
    requires
        placed.len() == stages.len(),
        order.len() == stages.len(),
        marks(placed, order),
        partial_order(stages, order),
        forall|i: int| 0 <= i < placed.len() ==> placed[i],
    ensures
        is_resolved_order(stages, order),
{
    assert forall|i: int| 0 <= i < stages.len() implies #[trigger] occurs(order, i) by {
        assert(placed[i]);
    }
    assert forall|p: int, q: int|
        0 <= p < order.len() && 0 <= q < order.len() && #[trigger] precedes(
            stages,
            order[p] as int,
            order[q] as int,
        ) implies p < q by {
        let done = order.take(q);
        assert(ready(stages, done, order[q] as int));
        assert(occurs(done, order[p] as int));
        let m = choose|m: int| 0 <= m < done.len() && #[trigger] done[m] == order[p];
        assert(order[m] == order[p]);
        if m < p {
            assert(order[m] != order[p]);
        }
        if p < m {
            assert(order[p] != order[m]);
        }
    }
}

/// When stages remain and none of them is ready, no consistent order exists.
proof fn lemma_none_ready(stages: Seq<Stage>, placed: Seq<bool>, order: Seq<usize>)
    requires
        placed.len() == stages.len(),
        marks(placed, order),
        exists|r: int| 0 <= r < placed.len() && !placed[r],
        forall|m: int| 0 <= m < stages.len() ==> #[trigger] placed[m] || !ready(stages, order, m),
    ensures
        forall|sigma: Seq<usize>| !is_consistent_order(stages, sigma),
{
    assert forall|i: int| 0 <= i < stages.len() && !#[trigger] placed[i] implies exists|j: int|
        0 <= j < stages.len() && !placed[j] && #[trigger] precedes(stages, j, i) by {
        assert(!ready(stages, order, i));
        let j = choose|j: int|
            0 <= j < stages.len() && #[trigger] precedes(stages, j, i) && !occurs(order, j);
        assert(!placed[j]);
    }
    assert forall|sigma: Seq<usize>| !is_consistent_order(stages, sigma) by {
        lemma_stuck_has_no_order(stages, placed, sigma);
    }
}

/// Resolves the order in which `stages` run: one total order that respects
/// every `before` and `after` constraint, taking at each step the
/// earliest-registered stage that is free to run.
///
/// Fails with `CyclicConstraint` exactly when no order respects every
/// constraint.
pub fn resolve_order(stages: &Vec<Stage>) -> (r: Result<Vec<usize>, ScheduleError>)
    ensures
        match r {
            Ok(order) => is_resolved_order(stages@, order@),
            Err(e) => {
                &&& e == ScheduleError::CyclicConstraint
                &&& forall|order: Seq<usize>| !is_consistent_order(stages@, order)
            },
        },
{
    let n = stages.len();
    let mut order: Vec<usize> = Vec::new();
    let mut placed: Vec<bool> = Vec::new();
    while placed.len() < n
        invariant
            n == stages@.len(),
            placed@.len() <= n,
            forall|i: int| 0 <= i < placed@.len() ==> !placed@[i],
        decreases n - placed@.len(),
    {
        placed.push(false);
    }
    proof {
        lemma_count_true_none(placed@);
    }
    while order.len() < n
        invariant
            n == stages@.len(),
            placed@.len() == n,
            order@.len() <= n,
            count_true(placed@) == order@.len(),
            marks(placed@, order@),
            partial_order(stages@, order@),
        decreases n - order@.len(),
    {
        match first_ready(stages, &placed, Ghost(order@)) {
            None => {
                proof {
                    lemma_count_true_bound(placed@);
                    lemma_none_ready(stages@, placed@, order@);
                }
                return Err(ScheduleError::CyclicConstraint);
            },
            Some(x) => {
                proof {
                    lemma_count_true_set(placed@, x as int);
                    lemma_place(stages@, placed@, order@, x);
                }
                order.push(x);
                placed.set(x, true);
            },
        }
    }
    proof {
        lemma_count_true_bound(placed@);
        lemma_complete(stages@, placed@, order@);
    }
    Ok(order)
}

} // verus!
