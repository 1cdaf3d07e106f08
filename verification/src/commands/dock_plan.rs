use vstd::prelude::*;

use super::windows::{undocked_after, viewport_bounds_of, viewport_child_bounds};
use crate::models::{DockPanelBounds, DockStateSnapshot, WindowRect};
use crate::state::dock_state_store::{
    lemma_only_bounds_changed_refl, lemma_only_bounds_changed_trans, only_bounds_changed,
};
use crate::state::DockStateStore;
use crate::win32::hwnd::null_hwnd_message;
use crate::win32::Hwnd;

verus! {

/// One change to native window state that docking or undocking performs.
#[derive(Debug, Clone, Copy, PartialEq, Eq, Structural)]
pub enum WindowOp {
    /// Add the no-activate bit to a window's extended style.
    ApplyNoActivate(Hwnd),
    /// Turn a top-level window into a dock-compatible child window.
    ApplyChildStyle(Hwnd),
    /// Reparent a live window into a live parent.
    SetParent { child: Hwnd, parent: Hwnd },
    /// Put back a saved parent (which may be null).
    RestoreParent { child: Hwnd, parent: Hwnd },
    /// Put back saved regular and extended styles.
    RestoreStyle { hwnd: Hwnd, style: isize, ex_style: isize },
    /// Place a docked child without activating it.
    SetPosition { hwnd: Hwnd, bounds: DockPanelBounds },
    /// Put a window back at a saved screen rectangle.
    RestoreRect { hwnd: Hwnd, rect: WindowRect },
    /// Guard a window and its children against mouse activation.
    InstallMouseNoActivate(Hwnd),
    /// Remove the activation guard of a window and its children.
    UninstallNoActivate(Hwnd),
    /// Keep a window from holding the keyboard foreground.
    RegisterFocusGuard(Hwnd),
    /// Stop keeping a window from holding the keyboard foreground.
    UnregisterFocusGuard(Hwnd),
}

/// One step of a plan: the change to make; whether its failure ends the plan
/// (otherwise the failure is only reported); and, when it does, the changes that
/// are made, in order and whatever their outcome, before the plan fails.
#[derive(Debug)]
pub struct PlanStep {
    pub op: WindowOp,
    pub required: bool,
    pub undo: Vec<WindowOp>,
}

/// A plan step taken as a value.
pub type StepView = (WindowOp, bool, Seq<WindowOp>);

/// The steps of a plan taken as values.
pub open spec fn steps_view(steps: Seq<PlanStep>) -> Seq<StepView> {
    steps.map_values(|s: PlanStep| (s.op, s.required, s.undo@))
}

/// The changes that dock a window, and how each failure is unwound.
/// The container is made non-activating; the target gets the child styles and the
/// no-activate bit and is reparented into the container (a failure there puts the
/// saved styles back); then it is guarded against activation and focus (failures
/// only reported); finally it is placed in the viewport, and a failure there
/// unwinds all of the above except the container's no-activate bit.
pub open spec fn dock_steps(
    container: Hwnd,
    snapshot: DockStateSnapshot,
    target_bounds: DockPanelBounds,
) -> Seq<StepView> {
    let t = Hwnd(snapshot.hwnd);
    let restore_style = WindowOp::RestoreStyle {
        hwnd: t,
        style: snapshot.original_style,
        ex_style: snapshot.original_ex_style,
    };
    seq![
        (WindowOp::ApplyNoActivate(container), true, Seq::empty()),
        (WindowOp::ApplyChildStyle(t), true, seq![restore_style]),
        (WindowOp::ApplyNoActivate(t), true, seq![restore_style]),
        (WindowOp::SetParent { child: t, parent: container }, true, seq![restore_style]),
        (WindowOp::InstallMouseNoActivate(t), false, Seq::empty()),
        (WindowOp::RegisterFocusGuard(t), false, Seq::empty()),
        (
            WindowOp::SetPosition { hwnd: t, bounds: target_bounds },
            true,
            seq![
                WindowOp::UnregisterFocusGuard(t),
                WindowOp::UninstallNoActivate(t),
                WindowOp::RestoreParent { child: t, parent: Hwnd(snapshot.original_parent) },
                restore_style,
            ],
        ),
    ]
}

/// The changes that undock a window from its snapshot: the activation and focus
/// guards are removed (failures only reported), then the saved parent, styles
/// and screen rectangle are put back.
pub open spec fn restore_steps(snapshot: DockStateSnapshot) -> Seq<StepView> {
    let t = Hwnd(snapshot.hwnd);
    seq![
        (WindowOp::UninstallNoActivate(t), false, Seq::empty()),
        (WindowOp::UnregisterFocusGuard(t), false, Seq::empty()),
        (
            WindowOp::RestoreParent { child: t, parent: Hwnd(snapshot.original_parent) },
            true,
            Seq::empty(),
        ),
        (
            WindowOp::RestoreStyle {
                hwnd: t,
                style: snapshot.original_style,
                ex_style: snapshot.original_ex_style,
            },
            true,
            Seq::empty(),
        ),
        (WindowOp::RestoreRect { hwnd: t, rect: snapshot.original_rect }, true, Seq::empty()),
    ]
}

/// How to dock a window: the steps to run, and the snapshot to record once they
/// all succeed.
pub struct DockPlan {
    pub steps: Vec<PlanStep>,
    pub snapshot: DockStateSnapshot,
}

fn no_ops() -> (r: Vec<WindowOp>)
    ensures
        r@ == Seq::<WindowOp>::empty(),
{
    Vec::new()
}

fn one_op(op: WindowOp) -> (r: Vec<WindowOp>)
    ensures
        r@ == seq![op],
{
    let mut r = Vec::new();
    r.push(op);
    assert(r@ =~= seq![op]);
    r
}

fn step(op: WindowOp, required: bool, undo: Vec<WindowOp>) -> (r: PlanStep)
    ensures
        r.op == op,
        r.required == required,
        r.undo@ == undo@,
{
    PlanStep { op, required, undo }
}

/// Plans docking the window of `snapshot` into `container`, placed at its virtual
/// bounds seen through the camera.
pub fn plan_dock(container: Hwnd, snapshot: DockStateSnapshot, camera_bounds: DockPanelBounds) -> (r:
    DockPlan)
    requires
        i32::MIN <= snapshot.virtual_bounds.x - camera_bounds.x <= i32::MAX,
        i32::MIN <= snapshot.virtual_bounds.y - camera_bounds.y <= i32::MAX,
    ensures
        r.snapshot == snapshot,
        steps_view(r.steps@) == dock_steps(
            container,
            snapshot,
            viewport_bounds_of(snapshot.virtual_bounds, camera_bounds),
        ),
{
    let target = Hwnd(snapshot.hwnd);
    let target_bounds = viewport_child_bounds(snapshot.virtual_bounds, camera_bounds);
    let restore_style = WindowOp::RestoreStyle {
        hwnd: target,
        style: snapshot.original_style,
        ex_style: snapshot.original_ex_style,
    };
    let mut unwind: Vec<WindowOp> = Vec::new();
    unwind.push(WindowOp::UnregisterFocusGuard(target));
    unwind.push(WindowOp::UninstallNoActivate(target));
    unwind.push(WindowOp::RestoreParent { child: target, parent: Hwnd(snapshot.original_parent) });
    unwind.push(restore_style);
    assert(unwind@ =~= seq![
        WindowOp::UnregisterFocusGuard(target),
        WindowOp::UninstallNoActivate(target),
        WindowOp::RestoreParent { child: target, parent: Hwnd(snapshot.original_parent) },
        restore_style,
    ]);
    let mut steps: Vec<PlanStep> = Vec::new();
    steps.push(step(WindowOp::ApplyNoActivate(container), true, no_ops()));
    steps.push(step(WindowOp::ApplyChildStyle(target), true, one_op(restore_style)));
    steps.push(step(WindowOp::ApplyNoActivate(target), true, one_op(restore_style)));
    steps.push(
        step(WindowOp::SetParent { child: target, parent: container }, true, one_op(restore_style)),
    );
    steps.push(step(WindowOp::InstallMouseNoActivate(target), false, no_ops()));
    steps.push(step(WindowOp::RegisterFocusGuard(target), false, no_ops()));
    steps.push(
        step(
            WindowOp::SetPosition { hwnd: target, bounds: target_bounds },
            true,
            unwind,
        ),
    );
    assert(steps_view(steps@) =~= dock_steps(
        container,
        snapshot,
        viewport_bounds_of(snapshot.virtual_bounds, camera_bounds),
    ));
    DockPlan { steps, snapshot }
}

/// Plans restoring a docked window from its snapshot; the snapshot's handle
/// must not be null.
pub fn restore_docked_snapshot(snapshot: &DockStateSnapshot) -> (r: Result<Vec<PlanStep>, String>)
    ensures
        r is Ok <==> snapshot.hwnd != 0,
        r matches Ok(steps) ==> steps_view(steps@) == restore_steps(*snapshot),
        r matches Err(e) ==> e@ == null_hwnd_message(),
{
    let target = Hwnd::new(snapshot.hwnd)?;
    let mut steps: Vec<PlanStep> = Vec::new();
    steps.push(step(WindowOp::UninstallNoActivate(target), false, no_ops()));
    steps.push(step(WindowOp::UnregisterFocusGuard(target), false, no_ops()));
    steps.push(
        step(
            WindowOp::RestoreParent { child: target, parent: Hwnd(snapshot.original_parent) },
            true,
            no_ops(),
        ),
    );
    steps.push(
        step(
            WindowOp::RestoreStyle {
                hwnd: target,
                style: snapshot.original_style,
                ex_style: snapshot.original_ex_style,
            },
            true,
            no_ops(),
        ),
    );
    steps.push(
        step(WindowOp::RestoreRect { hwnd: target, rect: snapshot.original_rect }, true, no_ops()),
    );
    assert(steps_view(steps@) =~= restore_steps(*snapshot));
    Ok(steps)
}

/// The change that undoes `op` on the docked window of `snapshot`, where there is one.
pub open spec fn inverse_op(op: WindowOp, snapshot: DockStateSnapshot) -> Option<WindowOp> {
    let t = Hwnd(snapshot.hwnd);
    let restore_style = WindowOp::RestoreStyle {
        hwnd: t,
        style: snapshot.original_style,
        ex_style: snapshot.original_ex_style,
    };
    match op {
        WindowOp::ApplyChildStyle(h) => if h == t {
            Some(restore_style)
        } else {
            None
        },
        WindowOp::ApplyNoActivate(h) => if h == t {
            Some(restore_style)
        } else {
            None
        },
        WindowOp::SetParent { child, parent } => if child == t {
            Some(WindowOp::RestoreParent { child: t, parent: Hwnd(snapshot.original_parent) })
        } else {
            None
        },
        WindowOp::InstallMouseNoActivate(h) => if h == t {
            Some(WindowOp::UninstallNoActivate(t))
        } else {
            None
        },
        WindowOp::RegisterFocusGuard(h) => if h == t {
            Some(WindowOp::UnregisterFocusGuard(t))
        } else {
            None
        },
        _ => None,
    }
}

/// The window that an undo change acts on.
pub open spec fn undo_target(op: WindowOp) -> Option<Hwnd> {
    match op {
        WindowOp::RestoreStyle { hwnd, .. } => Some(hwnd),
        WindowOp::RestoreParent { child, .. } => Some(child),
        WindowOp::UninstallNoActivate(h) => Some(h),
        WindowOp::UnregisterFocusGuard(h) => Some(h),
        _ => None,
    }
}

/// A failed docking unwinds what it did to the window: when a required step
/// fails, its undo list holds the inverse of every earlier change made to the
/// docked window; undo lists only touch the docked window (never the container),
/// and every non-empty one puts the saved styles back last.
pub proof fn lemma_dock_failure_unwinds(
    container: Hwnd,
    snapshot: DockStateSnapshot,
    target_bounds: DockPanelBounds,
)
    requires
        container.0 != snapshot.hwnd,
    ensures
        ({
            let steps = dock_steps(container, snapshot, target_bounds);
            &&& steps.len() == 7
            &&& forall|k: int, j: int|
                #![trigger steps[k], steps[j]]
                0 <= j < k < steps.len() && steps[k].1 && inverse_op(steps[j].0, snapshot) is Some
                    ==> steps[k].2.contains(inverse_op(steps[j].0, snapshot).unwrap())
            &&& forall|k: int, u: int|
                #![trigger steps[k].2[u]]
                0 <= k < steps.len() && 0 <= u < steps[k].2.len() ==> undo_target(steps[k].2[u])
                    == Some(Hwnd(snapshot.hwnd))
            &&& forall|k: int|
                #![trigger steps[k]]
                0 <= k < steps.len() && steps[k].2.len() > 0 ==> steps[k].2.last()
                    == WindowOp::RestoreStyle {
                    hwnd: Hwnd(snapshot.hwnd),
                    style: snapshot.original_style,
                    ex_style: snapshot.original_ex_style,
                }
        }),
{
    let steps = dock_steps(container, snapshot, target_bounds);
    let t = Hwnd(snapshot.hwnd);
    let restore_style = WindowOp::RestoreStyle {
        hwnd: t,
        style: snapshot.original_style,
        ex_style: snapshot.original_ex_style,
    };
    assert(inverse_op(steps[0].0, snapshot) is None);
    assert(steps[3].2.contains(restore_style)) by {
        assert(steps[3].2[0] == restore_style);
    }
    assert(steps[2].2.contains(restore_style)) by {
        assert(steps[2].2[0] == restore_style);
    }
    assert(steps[6].2.contains(restore_style)) by {
        assert(steps[6].2[3] == restore_style);
    }
    assert(steps[6].2.contains(WindowOp::RestoreParent { child: t, parent: Hwnd(snapshot.original_parent) })) by {
        assert(steps[6].2[2] == WindowOp::RestoreParent { child: t, parent: Hwnd(snapshot.original_parent) });
    }
    assert(steps[6].2.contains(WindowOp::UninstallNoActivate(t))) by {
        assert(steps[6].2[1] == WindowOp::UninstallNoActivate(t));
    }
    assert(steps[6].2.contains(WindowOp::UnregisterFocusGuard(t))) by {
        assert(steps[6].2[0] == WindowOp::UnregisterFocusGuard(t));
    }
}

/// Undoing a failed docking and undocking put back the same saved state: every
/// change in an undo list of the docking plan is also a step of the undocking
/// plan built from the same snapshot.
pub proof fn lemma_dock_undo_matches_undock(
    container: Hwnd,
    snapshot: DockStateSnapshot,
    target_bounds: DockPanelBounds,
)
    ensures
        ({
            let steps = dock_steps(container, snapshot, target_bounds);
            let restore = restore_steps(snapshot);
            forall|k: int, u: int|
                #![trigger steps[k].2[u]]
                0 <= k < steps.len() && 0 <= u < steps[k].2.len() ==> exists|m: int|
                    0 <= m < restore.len() && restore[m].0 == steps[k].2[u]
        }),
{
    let steps = dock_steps(container, snapshot, target_bounds);
    let restore = restore_steps(snapshot);
    assert forall|k: int, u: int|
        0 <= k < steps.len() && 0 <= u < steps[k].2.len() implies exists|m: int|
        0 <= m < restore.len() && restore[m].0 == #[trigger] steps[k].2[u] by {
        let op = steps[k].2[u];
        if op == restore[0].0 {
        } else if op == restore[1].0 {
        } else if op == restore[2].0 {
        } else {
            assert(op == restore[3].0);
        }
    }
}

// ---------------------------------------------------------------------------
// Running a plan
// ---------------------------------------------------------------------------

/// Where a run of a plan stands.
#[derive(Debug)]
pub enum RunState {
    /// The change of step `0` is to be made.
    Performing(usize),
    /// The optional step `0` failed with this error, which is to be reported.
    Reporting(usize, String),
    /// The required step `step` failed with `error`; entry `undo` of its undo
    /// list is the next change to make.
    Unwinding { step: usize, undo: usize, error: String },
    /// Every step was run and every required one succeeded.
    Succeeded,
    /// A required step failed with this error and its undo list was run.
    Failed(String),
}

/// What the caller does next in a run of a plan.
#[derive(Debug)]
pub enum PlanAction {
    /// Make this change and report its outcome.
    Perform(WindowOp),
    /// Report that this optional change failed with this error, then go on.
    Report { op: WindowOp, error: String },
    /// Make this undo change, whatever its outcome, then go on.
    Undo(WindowOp),
    /// The run is over, with this result.
    Finish(Result<(), String>),
}

/// The state that starts step `i`, or success past the last step.
pub open spec fn enter_step(steps: Seq<StepView>, i: int) -> RunState {
    if i < steps.len() {
        RunState::Performing(i as usize)
    } else {
        RunState::Succeeded
    }
}

/// The state that makes entry `k` of the undo list of step `i`, or the failure
/// with `error` past the end of that list.
pub open spec fn unwind_from(steps: Seq<StepView>, i: int, k: int, error: String) -> RunState {
    if k < steps[i].2.len() {
        RunState::Unwinding { step: i as usize, undo: k as usize, error }
    } else {
        RunState::Failed(error)
    }
}

/// A state that can occur in a run of `steps`.
pub open spec fn run_state_valid(steps: Seq<StepView>, state: RunState) -> bool {
    match state {
        RunState::Performing(i) => i < steps.len(),
        RunState::Reporting(i, _) => i < steps.len(),
        RunState::Unwinding { step, undo, .. } => step < steps.len() && undo < steps[step as int].2.len(),
        _ => true,
    }
}

/// The run is over.
pub open spec fn run_over(state: RunState) -> bool {
    state is Succeeded || state is Failed
}

/// The next state of a run after the outcome of its last action: a success moves
/// to the next step; a failed optional step is reported and the run goes on; a
/// failed required step runs its undo list, whose outcomes are ignored, and then
/// fails with the step's error.
pub open spec fn run_transition(
    steps: Seq<StepView>,
    state: RunState,
    outcome: Result<(), String>,
) -> RunState {
    match state {
        RunState::Performing(i) => match outcome {
            Ok(_) => enter_step(steps, i + 1),
            Err(e) => if steps[i as int].1 {
                unwind_from(steps, i as int, 0, e)
            } else {
                RunState::Reporting(i, e)
            },
        },
        RunState::Reporting(i, _) => enter_step(steps, i + 1),
        RunState::Unwinding { step, undo, error } => unwind_from(
            steps,
            step as int,
            undo + 1,
            error,
        ),
        _ => state,
    }
}

/// The action that a state calls for.
pub open spec fn run_action(steps: Seq<StepView>, state: RunState) -> PlanAction {
    match state {
        RunState::Performing(i) => PlanAction::Perform(steps[i as int].0),
        RunState::Reporting(i, e) => PlanAction::Report { op: steps[i as int].0, error: e },
        RunState::Unwinding { step, undo, .. } => PlanAction::Undo(
            steps[step as int].2[undo as int],
        ),
        RunState::Succeeded => PlanAction::Finish(Ok(())),
        RunState::Failed(e) => PlanAction::Finish(Err(e)),
    }
}

/// Starts running a plan.
pub fn begin_plan(steps: &Vec<PlanStep>) -> (r: RunState)
    ensures
        r == enter_step(steps_view(steps@), 0),
        run_state_valid(steps_view(steps@), r),
{
    if 0 < steps.len() {
        RunState::Performing(0)
    } else {
        RunState::Succeeded
    }
}

/// What to do next in a run of a plan.
pub fn next_action(steps: &Vec<PlanStep>, state: &RunState) -> (r: PlanAction)
    requires
        run_state_valid(steps_view(steps@), *state),
    ensures
        r == run_action(steps_view(steps@), *state),
{
    match state {
        RunState::Performing(i) => PlanAction::Perform(steps[*i].op),
        RunState::Reporting(i, e) => PlanAction::Report { op: steps[*i].op, error: e.clone() },
        RunState::Unwinding { step, undo, .. } => PlanAction::Undo(steps[*step].undo[*undo]),
        RunState::Succeeded => PlanAction::Finish(Ok(())),
        RunState::Failed(e) => PlanAction::Finish(Err(e.clone())),
    }
}

/// Moves a run on after the outcome of its last action (ignored after a report
/// or an undo change).
pub fn advance_plan(steps: &Vec<PlanStep>, state: RunState, outcome: Result<(), String>) -> (r:
    RunState)
    requires
        run_state_valid(steps_view(steps@), state),
        !run_over(state),
    ensures
        r == run_transition(steps_view(steps@), state, outcome),
        run_state_valid(steps_view(steps@), r),
{
    match state {
        RunState::Performing(i) => match outcome {
            Ok(_) => enter_after(steps, i),
            Err(e) => {
                if steps[i].required {
                    unwind_at(steps, i, 0, e)
                } else {
                    RunState::Reporting(i, e)
                }
            },
        },
        RunState::Reporting(i, _) => enter_after(steps, i),
        RunState::Unwinding { step, undo, error } => {
            assert(steps_view(steps@)[step as int].2 == steps@[step as int].undo@);
            unwind_after(steps, step, undo, error)
        },
        RunState::Succeeded => RunState::Succeeded,
        RunState::Failed(e) => RunState::Failed(e),
    }
}

/// The state that starts the step after step `i`.
fn enter_after(steps: &Vec<PlanStep>, i: usize) -> (r: RunState)
    requires
        i < steps@.len(),
    ensures
        r == enter_step(steps_view(steps@), i + 1),
        run_state_valid(steps_view(steps@), r),
{
    let step_count: usize = steps.len();
    if i + 1 < step_count {
        RunState::Performing(i + 1)
    } else {
        RunState::Succeeded
    }
}

/// The state after undo change `k` of step `i` was made.
fn unwind_after(steps: &Vec<PlanStep>, i: usize, k: usize, error: String) -> (r: RunState)
    requires
        i < steps@.len(),
        k < steps@[i as int].undo@.len(),
    ensures
        r == unwind_from(steps_view(steps@), i as int, k + 1, error),
        run_state_valid(steps_view(steps@), r),
{
    let undo_count: usize = steps[i].undo.len();
    if k + 1 < undo_count {
        RunState::Unwinding { step: i, undo: k + 1, error }
    } else {
        RunState::Failed(error)
    }
}

fn unwind_at(steps: &Vec<PlanStep>, i: usize, k: usize, error: String) -> (r: RunState)
    requires
        i < steps@.len(),
        k <= steps@[i as int].undo@.len(),
    ensures
        r == unwind_from(steps_view(steps@), i as int, k as int, error),
        run_state_valid(steps_view(steps@), r),
{
    if k < steps[i].undo.len() {
        RunState::Unwinding { step: i, undo: k, error }
    } else {
        RunState::Failed(error)
    }
}

/// A run in which every change succeeds makes the changes of all steps in order
/// and succeeds.
pub proof fn lemma_run_all_succeed(steps: Seq<StepView>, i: int)
    requires
        steps.len() <= usize::MAX,
        0 <= i < steps.len(),
    ensures
        run_action(steps, enter_step(steps, i)) == PlanAction::Perform(steps[i].0),
        run_transition(steps, enter_step(steps, i), Ok(())) == enter_step(steps, i + 1),
        enter_step(steps, steps.len() as int) == RunState::Succeeded,
{
}

/// A failed optional step is reported and the run goes on with the next step.
pub proof fn lemma_optional_failure_continues(steps: Seq<StepView>, i: int, error: String)
    requires
        steps.len() <= usize::MAX,
        0 <= i < steps.len(),
        !steps[i].1,
    ensures
        ({
            let reported = run_transition(steps, RunState::Performing(i as usize), Err(error));
            &&& run_action(steps, reported) == (PlanAction::Report { op: steps[i].0, error })
            &&& forall|o: Result<(), String>| #[trigger]
                run_transition(steps, reported, o) == enter_step(steps, i + 1)
        }),
{
}

/// A failed required step makes every change of its undo list in order, whatever
/// their outcomes, and then fails with the step's error.
pub proof fn lemma_required_failure_unwinds(steps: Seq<StepView>, i: int, error: String, k: int)
    requires
        steps.len() <= usize::MAX,
        0 <= i < steps.len(),
        steps[i].1,
        0 <= k <= steps[i].2.len(),
        steps[i].2.len() <= usize::MAX,
    ensures
        k == 0 ==> run_transition(steps, RunState::Performing(i as usize), Err(error))
            == unwind_from(steps, i, 0, error),
        k < steps[i].2.len() ==> run_action(steps, unwind_from(steps, i, k, error))
            == PlanAction::Undo(steps[i].2[k]),
        k < steps[i].2.len() ==> forall|o: Result<(), String>| #[trigger]
            run_transition(steps, unwind_from(steps, i, k, error), o) == unwind_from(
                steps,
                i,
                k + 1,
                error,
            ),
        k == steps[i].2.len() ==> run_action(steps, unwind_from(steps, i, k, error))
            == PlanAction::Finish(Err(error)),
{
}

// ---------------------------------------------------------------------------
// Committing a dock to the store
// ---------------------------------------------------------------------------

/// The docked windows after a dock whose plan ran with `outcome`: the plan's
/// snapshot is recorded only when every required step succeeded.
pub open spec fn docked_after(
    docked: Map<isize, DockStateSnapshot>,
    snapshot: DockStateSnapshot,
    outcome: Result<(), String>,
) -> Map<isize, DockStateSnapshot> {
    if outcome is Ok {
        docked.insert(snapshot.hwnd, snapshot)
    } else {
        docked
    }
}

/// Completes a dock request once its plan ran with `outcome`: on success the
/// plan's snapshot is recorded; on failure (a styling, reparenting or placement
/// step failed and was unwound) the store is left as it was. The request's
/// result is the run's outcome.
pub fn finish_dock(store: &mut DockStateStore, plan: &DockPlan, outcome: Result<(), String>) -> (r:
    Result<(), String>)
    ensures
        r == outcome,
        final(store)@ == docked_after(old(store)@, plan.snapshot, outcome),
        outcome is Err ==> final(store).snapshots() == old(store).snapshots(),
{
    match outcome {
        Ok(done) => {
            store.insert(plan.snapshot);
            Ok(done)
        },
        Err(e) => Err(e),
    }
}

/// Docking a window that was not docked and then undocking it, both succeeding,
/// gives back the store from before; the dock records exactly the plan's
/// snapshot, a failed dock changes nothing, and a failed undock keeps the
/// snapshot for a retry.
pub proof fn lemma_dock_command_round_trip(
    docked: Map<isize, DockStateSnapshot>,
    snapshot: DockStateSnapshot,
    error: String,
)
    requires
        !docked.contains_key(snapshot.hwnd),
    ensures
        docked_after(docked, snapshot, Ok(()))[snapshot.hwnd] == snapshot,
        undocked_after(docked_after(docked, snapshot, Ok(())), snapshot.hwnd, Ok(())) == docked,
        docked_after(docked, snapshot, Err(error)) == docked,
        undocked_after(docked_after(docked, snapshot, Ok(())), snapshot.hwnd, Err(error))[
            snapshot.hwnd] == snapshot,
{
    assert(docked.insert(snapshot.hwnd, snapshot).remove(snapshot.hwnd) =~= docked);
}

/// Each stage of the store follows from the one before by a request that only
/// moves docked windows on the virtual canvas.
pub open spec fn only_moves(stages: Seq<Map<isize, DockStateSnapshot>>) -> bool {
    forall|i: int|
        0 <= i < stages.len() - 1 ==> only_bounds_changed(#[trigger] stages[i], stages[i + 1])
}

/// No step between the stages of the store touches a window other than `hwnd`.
pub open spec fn touch_only(stages: Seq<Map<isize, DockStateSnapshot>>, hwnd: isize) -> bool {
    forall|i: int|
        0 <= i < stages.len() - 1 ==> (#[trigger] stages[i]).remove(hwnd) == stages[i + 1].remove(
            hwnd,
        )
}

/// Requests that only move docked windows on the virtual canvas, one after
/// another, together still only move docked windows on the canvas; if none of
/// them touched any window but `hwnd`, together they touched no other window.
proof fn lemma_moves_compose(stages: Seq<Map<isize, DockStateSnapshot>>, hwnd: isize, k: int)
    requires
        0 <= k < stages.len(),
        only_moves(stages),
    ensures
        only_bounds_changed(stages[0], stages[k]),
        touch_only(stages, hwnd) ==> stages[k].remove(hwnd) == stages[0].remove(hwnd),
    decreases k,
{
    if k == 0 {
        lemma_only_bounds_changed_refl(stages[0]);
    } else {
        lemma_moves_compose(stages, hwnd, k - 1);
        assert(only_bounds_changed(stages[k - 1], stages[k]));
        lemma_only_bounds_changed_trans(stages[0], stages[k - 1], stages[k]);
    }
}

/// Docking a window that was not docked, then any number of requests that only
/// move docked windows on the virtual canvas (placements, successful or not, and
/// syncs), then undocking it successfully: the window is still docked when the
/// undock comes, the undock puts back exactly the parent, styles and rectangle
/// recorded when it was docked (and removes its activation and focus guards),
/// and afterwards every other window is docked with the same saved state as
/// before the dock, only possibly moved on the canvas by those requests. When
/// none of the requests touched another window, the store is exactly the one
/// from before the dock.
///
/// `stages[0]` is the store right after the dock and each later stage the store
/// after one more request; every placement and every sync of docked window
/// bounds is such a request.
pub proof fn lemma_dock_moves_undock_round_trip(
    docked: Map<isize, DockStateSnapshot>,
    snapshot: DockStateSnapshot,
    stages: Seq<Map<isize, DockStateSnapshot>>,
)
    requires
        !docked.contains_key(snapshot.hwnd),
        stages.len() >= 1,
        stages[0] == docked_after(docked, snapshot, Ok(())),
        only_moves(stages),
    ensures
        stages.last().contains_key(snapshot.hwnd),
        stages.last()[snapshot.hwnd] == (DockStateSnapshot {
            virtual_bounds: stages.last()[snapshot.hwnd].virtual_bounds,
            ..snapshot
        }),
        restore_steps(stages.last()[snapshot.hwnd]) == restore_steps(snapshot),
        only_bounds_changed(docked, undocked_after(stages.last(), snapshot.hwnd, Ok(()))),
        touch_only(stages, snapshot.hwnd) ==> undocked_after(stages.last(), snapshot.hwnd, Ok(()))
            == docked,
{
    let h = snapshot.hwnd;
    let first = stages[0];
    let last = stages.last();
    lemma_moves_compose(stages, h, stages.len() - 1);
    assert(first.contains_key(h));
    assert(last.contains_key(h));
    let after = undocked_after(last, h, Ok(()));
    assert(after.dom() =~= docked.dom());
    assert forall|k: isize| #[trigger] docked.contains_key(k) implies after[k]
        == DockStateSnapshot { virtual_bounds: after[k].virtual_bounds, ..docked[k] } by {
        assert(first.contains_key(k));
        assert(first[k] == docked[k]);
    }
    assert(first.remove(h) =~= docked);
}

} // verus!
