use schedule_hook::pipeline::Pipeline;
use schedule_hook::scheduler::{resolve_order, RunPredicate, ScheduleError, Stage};

const A: u64 = 1;
const B: u64 = 2;
const C: u64 = 3;

fn position(order: &[u64], id: u64) -> usize {
    order.iter().position(|x| *x == id).unwrap()
}

fn chain_stage(id: u64, style: u32) -> Stage {
    let stage = Stage::new(id, RunPredicate::Always);
    match (id, style) {
        (A, 0) => stage.before(B),
        (B, 0) => stage.before(C),
        (B, 1) => stage.after(A),
        (C, 1) => stage.after(B),
        (A, 2) => stage.before(B),
        (C, 2) => stage.after(B),
        (B, 3) => stage.after(A).before(C),
        _ => stage,
    }
}

#[test]
fn a_chain_runs_in_chain_order_whatever_the_registration_order() {
    let mut state: u64 = 0x9e37_79b9_7f4a_7c15;
    for round in 0..1000u32 {
        let mut ids = vec![A, B, C, 4, 5];
        for i in (1..ids.len()).rev() {
            state = state.wrapping_mul(6_364_136_223_846_793_005).wrapping_add(1_442_695_040_888_963_407);
            let j = (state >> 33) as usize % (i + 1);
            ids.swap(i, j);
        }
        let mut pipeline = Pipeline::new(7);
        let batch: Vec<Stage> = ids.iter().map(|id| chain_stage(*id, round % 4)).collect();
        assert_eq!(pipeline.register_stages(batch), Ok(()));
        let order = pipeline.stage_order();
        assert_eq!(order.len(), 5);
        assert!(position(&order, A) < position(&order, B));
        assert!(position(&order, B) < position(&order, C));
        let plan = pipeline.begin_dispatch();
        assert_eq!(plan, order);
    }
}

#[test]
fn every_permutation_of_a_chain_resolves_to_the_chain() {
    let permutations = [[A, B, C], [A, C, B], [B, A, C], [B, C, A], [C, A, B], [C, B, A]];
    for ids in permutations {
        for style in 0..4 {
            let mut pipeline = Pipeline::new(1);
            for id in ids {
                assert_eq!(pipeline.register_stage(chain_stage(id, style)), Ok(()));
            }
            assert_eq!(pipeline.stage_order(), vec![A, B, C]);
        }
    }
}

#[test]
fn mutual_constraints_are_cyclic_and_install_neither_stage() {
    let mut pipeline = Pipeline::new(1);
    let batch = vec![
        Stage::new(A, RunPredicate::Always).before(B),
        Stage::new(B, RunPredicate::Always).before(A),
    ];
    assert_eq!(pipeline.register_stages(batch), Err(ScheduleError::CyclicConstraint));
    assert_eq!(pipeline.len(), 0);
    assert_eq!(pipeline.stage_order(), Vec::<u64>::new());
    assert_eq!(pipeline.begin_dispatch(), Vec::<u64>::new());
}

#[test]
fn a_cycle_completed_later_leaves_the_pipeline_as_it_was() {
    let mut pipeline = Pipeline::new(1);
    assert_eq!(pipeline.register_stage(Stage::new(A, RunPredicate::Always).before(B)), Ok(()));
    assert_eq!(pipeline.register_stage(Stage::new(C, RunPredicate::Once)), Ok(()));
    assert_eq!(
        pipeline.register_stage(Stage::new(B, RunPredicate::Always).before(A)),
        Err(ScheduleError::CyclicConstraint)
    );
    assert_eq!(pipeline.len(), 2);
    assert_eq!(pipeline.stage_order(), vec![A, C]);
    assert_eq!(pipeline.register_stage(Stage::new(B, RunPredicate::Always)), Ok(()));
    assert_eq!(pipeline.stage_order(), vec![A, C, B]);
}

#[test]
fn longer_cycles_and_self_constraints_are_cyclic() {
    let three = vec![
        Stage::new(A, RunPredicate::Always).before(B),
        Stage::new(B, RunPredicate::Always).before(C),
        Stage::new(C, RunPredicate::Always).before(A),
    ];
    assert_eq!(resolve_order(&three), Err(ScheduleError::CyclicConstraint));
    let own = vec![Stage::new(A, RunPredicate::Always).after(A)];
    assert_eq!(resolve_order(&own), Err(ScheduleError::CyclicConstraint));
    let mixed = vec![
        Stage::new(A, RunPredicate::Always).after(B),
        Stage::new(B, RunPredicate::Always).after(A),
        Stage::new(C, RunPredicate::Always),
    ];
    assert_eq!(resolve_order(&mixed), Err(ScheduleError::CyclicConstraint));
}

#[test]
fn resolve_order_takes_the_earliest_registered_free_stage() {
    let stages = vec![
        Stage::new(10, RunPredicate::Always).after(30),
        Stage::new(20, RunPredicate::Always),
        Stage::new(30, RunPredicate::Always),
        Stage::new(40, RunPredicate::Always).before(20),
    ];
    assert_eq!(resolve_order(&stages), Ok(vec![2, 0, 3, 1]));
    assert_eq!(resolve_order(&Vec::new()), Ok(Vec::new()));
}

#[test]
fn a_constraint_on_an_unknown_stage_constrains_nothing() {
    let stages = vec![
        Stage::new(A, RunPredicate::Always).after(99),
        Stage::new(B, RunPredicate::Always).before(98),
    ];
    assert_eq!(resolve_order(&stages), Ok(vec![0, 1]));
}

#[test]
fn a_name_cannot_be_registered_twice() {
    let mut pipeline = Pipeline::new(1);
    assert_eq!(pipeline.register_stage(Stage::new(A, RunPredicate::Always)), Ok(()));
    assert_eq!(
        pipeline.register_stage(Stage::new(A, RunPredicate::Once)),
        Err(ScheduleError::DuplicateStage { id: A })
    );
    assert_eq!(pipeline.len(), 1);
    let batch = vec![Stage::new(B, RunPredicate::Always), Stage::new(B, RunPredicate::Always)];
    assert_eq!(pipeline.register_stages(batch), Err(ScheduleError::DuplicateStage { id: B }));
    assert_eq!(pipeline.stage_order(), vec![A]);
}

#[test]
fn run_once_stages_take_part_in_the_first_dispatch_only() {
    let mut pipeline = Pipeline::new(1);
    let batch = vec![
        Stage::new(A, RunPredicate::Once),
        Stage::new(B, RunPredicate::Always).after(A),
        Stage::new(C, RunPredicate::Once).after(B),
    ];
    assert_eq!(pipeline.register_stages(batch), Ok(()));
    assert_eq!(pipeline.begin_dispatch(), vec![A, B, C]);
    assert_eq!(pipeline.begin_dispatch(), vec![B]);
    assert_eq!(pipeline.begin_dispatch(), vec![B]);
    assert_eq!(pipeline.stage_order(), vec![A, B, C]);
    assert_eq!(pipeline.register_stage(Stage::new(4, RunPredicate::Once).before(B)), Ok(()));
    assert_eq!(pipeline.stage_order(), vec![A, 4, B, C]);
    assert_eq!(pipeline.begin_dispatch(), vec![4, B]);
    assert_eq!(pipeline.begin_dispatch(), vec![B]);
}

#[test]
fn a_new_pipeline_is_empty_and_keeps_its_hook() {
    let pipeline = Pipeline::new(42);
    assert_eq!(pipeline.hook_id(), 42);
    assert_eq!(pipeline.len(), 0);
}

#[test]
fn stage_builders_collect_constraints() {
    let stage = Stage::new(A, RunPredicate::Once).before(B).after(C).before(4);
    assert_eq!(stage.id, A);
    assert_eq!(stage.run, RunPredicate::Once);
    assert_eq!(stage.before, vec![B, 4]);
    assert_eq!(stage.after, vec![C]);
}
