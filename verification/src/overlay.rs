//! The hooks of the overlay: which functions of the host it intercepts,
//! how it finds them, and which stages run in their place.

use crate::record::{Params, Signature, ValueKind};
use crate::scheduler::{RunPredicate, Stage};
use crate::setup::{is_resolution_of, resolve, ModuleImage, SetupError};
use vstd::prelude::*;
use vstd::string::StringSliceAdditionalSpecFns;

verus! {

/// The hook on the function that presents a frame.
pub const PRESENT: u64 = 1;

/// The hook on the function that resizes the frame buffers.
pub const RESIZE_BUFFERS: u64 = 2;

/// The hook on the function that handles the window messages of the host's
/// own overlay.
pub const OVERLAY_MESSAGE_HANDLER: u64 = 3;

pub const HOOK_RESIZE_BUFFERS: u64 = 10;

pub const SETUP_RENDER_TARGETS: u64 = 11;

pub const PRESENT_RENDER_PRIMITIVES: u64 = 12;

pub const PRESENT_ORIGINAL: u64 = 13;

pub const RESIZE_BUFFERS_ORIGINAL: u64 = 20;

pub const RESIZE_BUFFERS_UPDATE_RENDER: u64 = 21;

pub const MESSAGE_HANDLER: u64 = 30;

pub const UI_BEGIN_FRAME: u64 = 40;

pub const UI_END_FRAME: u64 = 41;

pub const PAINTER_BEGIN_FRAME: u64 = 50;

pub const PAINTER_END_FRAME: u64 = 51;

pub const MARK_NEW_PROFILED_FRAME: u64 = 60;

pub const PROFILER_UI: u64 = 61;

/// The module of the host in which the hooked functions are looked for.
pub fn overlay_module_name() -> (name: &'static str)
    ensures
        name@ == "GameOverlayRenderer64.dll"@,
{
    "GameOverlayRenderer64.dll"
}

/// Presenting a frame takes the swap chain, the sync interval and the
/// flags, and returns a status.
pub fn present_signature() -> (s: Signature)
    ensures
        s.params == Params::ABC(ValueKind::Pointer, ValueKind::U32, ValueKind::U32),
        s.ret == ValueKind::I32,
{
    Signature {
        params: Params::ABC(ValueKind::Pointer, ValueKind::U32, ValueKind::U32),
        ret: ValueKind::I32,
    }
}

/// Resizing the buffers takes the swap chain, the number of buffers, the
/// width, the height, the format and the flags, and returns a status.
pub fn resize_buffers_signature() -> (s: Signature)
    ensures
        s.params == Params::ABCDEF(
            ValueKind::Pointer,
            ValueKind::U32,
            ValueKind::U32,
            ValueKind::U32,
            ValueKind::I32,
            ValueKind::U32,
        ),
        s.ret == ValueKind::I32,
{
    Signature {
        params: Params::ABCDEF(
            ValueKind::Pointer,
            ValueKind::U32,
            ValueKind::U32,
            ValueKind::U32,
            ValueKind::I32,
            ValueKind::U32,
        ),
        ret: ValueKind::I32,
    }
}

/// The message handler takes the address of the message and a number, and
/// returns a number.
pub fn overlay_message_handler_signature() -> (s: Signature)
    ensures
        s.params == Params::AB(ValueKind::Pointer, ValueKind::U64),
        s.ret == ValueKind::U64,
{
    Signature { params: Params::AB(ValueKind::Pointer, ValueKind::U64), ret: ValueKind::U64 }
}

/// Finds the function that presents a frame, by its signature.
pub fn find_present_fn(module: Option<&ModuleImage<'_>>) -> (r: Result<usize, SetupError>)
    ensures
        is_resolution_of(
            module,
            "48 89 6C 24 ?? 48 89 74 24 ?? 41 56 48 83 EC ?? 41 8B E8".spec_bytes(),
            r,
        ),
{
    resolve(module, "48 89 6C 24 ?? 48 89 74 24 ?? 41 56 48 83 EC ?? 41 8B E8")
}

/// Finds the function that handles the overlay's window messages, by its
/// signature.
pub fn find_overlay_input_fn(module: Option<&ModuleImage<'_>>) -> (r: Result<usize, SetupError>)
    ensures
        is_resolution_of(
            module,
            "48 89 5C 24 ?? 48 89 74 24 ?? 48 89 7C 24 ?? 55 41 54 41 55 41 56 41 57 48 8D 6C 24 C9 48 81 EC ?? ?? ?? ?? 44 0F B6 E2".spec_bytes(),
            r,
        ),
{
    resolve(
        module,
        "48 89 5C 24 ?? 48 89 74 24 ?? 48 89 7C 24 ?? 55 41 54 41 55 41 56 41 57 48 8D 6C 24 C9 48 81 EC ?? ?? ?? ?? 44 0F B6 E2",
    )
}

/// `stage` is the stage `id` with these constraints and this predicate.
pub open spec fn is_stage(
    stage: Stage,
    id: u64,
    before: Seq<u64>,
    after: Seq<u64>,
    run: RunPredicate,
) -> bool {
    stage.id == id && stage.before@ == before && stage.after@ == after && stage.run == run
}

/// The stages that render in place of presenting a frame: on the first
/// frame only, the hook on resizing is set up; the render targets are set up
/// before the painted primitives are presented; these are presented before
/// the original function presents the frame.
pub fn render_stages() -> (stages: Vec<Stage>)
    ensures
        stages@.len() == 4,
        is_stage(stages@[0], HOOK_RESIZE_BUFFERS, seq![], seq![], RunPredicate::Once),
        is_stage(
            stages@[1],
            SETUP_RENDER_TARGETS,
            seq![PRESENT_RENDER_PRIMITIVES],
            seq![],
            RunPredicate::Always,
        ),
        is_stage(
            stages@[2],
            PRESENT_RENDER_PRIMITIVES,
            seq![PRESENT_ORIGINAL],
            seq![],
            RunPredicate::Always,
        ),
        is_stage(stages@[3], PRESENT_ORIGINAL, seq![], seq![], RunPredicate::Always),
{
    let mut stages: Vec<Stage> = Vec::new();
    stages.push(Stage::new(HOOK_RESIZE_BUFFERS, RunPredicate::Once));
    stages.push(
        Stage::new(SETUP_RENDER_TARGETS, RunPredicate::Always).before(PRESENT_RENDER_PRIMITIVES),
    );
    stages.push(
        Stage::new(PRESENT_RENDER_PRIMITIVES, RunPredicate::Always).before(PRESENT_ORIGINAL),
    );
    stages.push(Stage::new(PRESENT_ORIGINAL, RunPredicate::Always));
    proof {
        assert(Seq::<u64>::empty().push(PRESENT_RENDER_PRIMITIVES) =~= seq![
            PRESENT_RENDER_PRIMITIVES,
        ]);
        assert(Seq::<u64>::empty().push(PRESENT_ORIGINAL) =~= seq![PRESENT_ORIGINAL]);
    }
    stages
}

/// The stages that run in place of resizing the buffers.
pub fn resize_buffers_stages() -> (stages: Vec<Stage>)
    ensures
        stages@.len() == 2,
        is_stage(stages@[0], RESIZE_BUFFERS_ORIGINAL, seq![], seq![], RunPredicate::Always),
        is_stage(stages@[1], RESIZE_BUFFERS_UPDATE_RENDER, seq![], seq![], RunPredicate::Always),
{
    let mut stages: Vec<Stage> = Vec::new();
    stages.push(Stage::new(RESIZE_BUFFERS_ORIGINAL, RunPredicate::Always));
    stages.push(Stage::new(RESIZE_BUFFERS_UPDATE_RENDER, RunPredicate::Always));
    stages
}

/// The stage that runs in place of the overlay's message handler.
pub fn overlay_input_stages() -> (stages: Vec<Stage>)
    ensures
        stages@.len() == 1,
        is_stage(stages@[0], MESSAGE_HANDLER, seq![], seq![], RunPredicate::Always),
{
    let mut stages: Vec<Stage> = Vec::new();
    stages.push(Stage::new(MESSAGE_HANDLER, RunPredicate::Always));
    stages
}

/// The stages of the user interface: the frame is begun, and ended after
/// it was begun.
pub fn ui_stages() -> (stages: Vec<Stage>)
    ensures
        stages@.len() == 2,
        is_stage(stages@[0], UI_BEGIN_FRAME, seq![], seq![], RunPredicate::Always),
        is_stage(stages@[1], UI_END_FRAME, seq![], seq![UI_BEGIN_FRAME], RunPredicate::Always),
{
    let mut stages: Vec<Stage> = Vec::new();
    stages.push(Stage::new(UI_BEGIN_FRAME, RunPredicate::Always));
    stages.push(Stage::new(UI_END_FRAME, RunPredicate::Always).after(UI_BEGIN_FRAME));
    proof {
        assert(Seq::<u64>::empty().push(UI_BEGIN_FRAME) =~= seq![UI_BEGIN_FRAME]);
    }
    stages
}

/// The stages of the painter: the frame is begun, and ended after it was
/// begun.
pub fn paint_stages() -> (stages: Vec<Stage>)
    ensures
        stages@.len() == 2,
        is_stage(stages@[0], PAINTER_BEGIN_FRAME, seq![], seq![], RunPredicate::Always),
        is_stage(
            stages@[1],
            PAINTER_END_FRAME,
            seq![],
            seq![PAINTER_BEGIN_FRAME],
            RunPredicate::Always,
        ),
{
    let mut stages: Vec<Stage> = Vec::new();
    stages.push(Stage::new(PAINTER_BEGIN_FRAME, RunPredicate::Always));
    stages.push(Stage::new(PAINTER_END_FRAME, RunPredicate::Always).after(PAINTER_BEGIN_FRAME));
    proof {
        assert(Seq::<u64>::empty().push(PAINTER_BEGIN_FRAME) =~= seq![PAINTER_BEGIN_FRAME]);
    }
    stages
}

/// The stages of the profiler: a new frame is marked, and the profiler's
/// window is shown after the frame of the user interface was begun.
pub fn profiler_stages() -> (stages: Vec<Stage>)
    ensures
        stages@.len() == 2,
        is_stage(stages@[0], MARK_NEW_PROFILED_FRAME, seq![], seq![], RunPredicate::Always),
        is_stage(stages@[1], PROFILER_UI, seq![], seq![UI_BEGIN_FRAME], RunPredicate::Always),
{
    let mut stages: Vec<Stage> = Vec::new();
    stages.push(Stage::new(MARK_NEW_PROFILED_FRAME, RunPredicate::Always));
    stages.push(Stage::new(PROFILER_UI, RunPredicate::Always).after(UI_BEGIN_FRAME));
    proof {
        assert(Seq::<u64>::empty().push(UI_BEGIN_FRAME) =~= seq![UI_BEGIN_FRAME]);
    }
    stages
}

/// Puts a stage among those that build the user interface: after the
/// frame was begun and before it is ended.
pub fn in_ui_update(stage: Stage) -> (s: Stage)
    ensures
        s.id == stage.id,
        s.run == stage.run,
        s.before@ == stage.before@.push(UI_END_FRAME),
        s.after@ == stage.after@.push(UI_BEGIN_FRAME),
{
    stage.after(UI_BEGIN_FRAME).before(UI_END_FRAME)
}

/// Puts a stage among those that paint: after the painter's frame was
/// begun and before it is ended.
pub fn in_painter_update(stage: Stage) -> (s: Stage)
    ensures
        s.id == stage.id,
        s.run == stage.run,
        s.before@ == stage.before@.push(PAINTER_END_FRAME),
        s.after@ == stage.after@.push(PAINTER_BEGIN_FRAME),
{
    stage.after(PAINTER_BEGIN_FRAME).before(PAINTER_END_FRAME)
}

} // verus!
