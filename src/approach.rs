//! The cycle each approach task runs while its mode's permit is out.
//!
//! A task waits for its mode's permit, shows a fixed sequence of scenes with
//! a dwell after each, and gives the permit back at the end of the cycle.
//! Flash and priority cycles hold their middle scene until lockout is seen,
//! polling at a fixed interval, so that a mode change always ends them at a
//! scene boundary. The waiting and the semaphores belong to the caller, who
//! performs each action that `step` returns.
use crate::lamps::{deactivated, entered_go, PedestrianCallState, PedestrianLights, TrafficLights};
use crate::timed_output_masker::{OutputStateDescriptor, TimedOutputMasker};
use crate::trafficlight::{ATTENTION_MILLIS, CLEAR_MILLIS, GO_MILLIS, YIELD_MILLIS};
use vstd::prelude::*;

verus! {

/// Interval at which a flash cycle looks for lockout, in milliseconds.
pub const FLASH_POLL_MILLIS: u64 = 2_000;

/// Interval at which a priority cycle looks for lockout, in milliseconds.
pub const PRIORITY_POLL_MILLIS: u64 = 500;

/// The lamp states of one approach that a task can show.
#[derive(Clone, Copy, Debug, PartialEq, Eq, Structural)]
pub enum Scene {
    Attention,
    Go,
    Yield,
    Clear,
    Flash,
    YieldFlash,
    /// Traffic attention with pedestrians held: none cross while emergency
    /// services pass.
    PriorityAttention,
    PriorityGo,
    PriorityYield,
    PriorityClear,
}

#[derive(Clone, Copy, Debug, PartialEq, Eq, Structural)]
pub enum TaskKind {
    Normal,
    Flash,
    Priority,
}

#[derive(Clone, Copy, Debug, PartialEq, Eq, Structural)]
pub enum Stage {
    /// Holding no permit.
    Idle,
    /// Permit granted, nothing shown yet.
    Granted,
    Attention,
    Go,
    /// Showing the middle scene until lockout.
    Hold,
    Yield,
    Clear,
}

#[derive(Clone, Copy, Debug, PartialEq, Eq, Structural)]
pub enum TaskAction {
    /// Wait for the mode's permit.
    Acquire,
    /// Show the scene, then dwell for the given milliseconds.
    Show(Scene, u64),
    /// Lockout is off: wait the given milliseconds and look again.
    Poll(u64),
    /// Give the permit back.
    Release,
}

/// The next stage and the action that leads there.
pub open spec fn spec_task_step(kind: TaskKind, stage: Stage, lockout: bool) -> (Stage, TaskAction) {
    match (kind, stage) {
        (_, Stage::Idle) => (Stage::Granted, TaskAction::Acquire),
        (_, Stage::Clear) => (Stage::Idle, TaskAction::Release),
        (TaskKind::Normal, Stage::Granted) => (
            Stage::Attention,
            TaskAction::Show(Scene::Attention, ATTENTION_MILLIS),
        ),
        (TaskKind::Normal, Stage::Attention) => (Stage::Go, TaskAction::Show(Scene::Go, GO_MILLIS)),
        (TaskKind::Normal, Stage::Go) => (Stage::Yield, TaskAction::Show(Scene::Yield, YIELD_MILLIS)),
        (TaskKind::Normal, _) => (Stage::Clear, TaskAction::Show(Scene::Clear, CLEAR_MILLIS)),
        (TaskKind::Flash, Stage::Granted) => (Stage::Hold, TaskAction::Show(Scene::Flash, 0)),
        (TaskKind::Flash, Stage::Yield) => (Stage::Clear, TaskAction::Show(Scene::Clear, CLEAR_MILLIS)),
        (TaskKind::Flash, _) => if lockout {
            (Stage::Yield, TaskAction::Show(Scene::YieldFlash, YIELD_MILLIS))
        } else {
            (Stage::Hold, TaskAction::Poll(FLASH_POLL_MILLIS))
        },
        (TaskKind::Priority, Stage::Granted) => (
            Stage::Attention,
            TaskAction::Show(Scene::PriorityAttention, ATTENTION_MILLIS),
        ),
        (TaskKind::Priority, Stage::Attention) => (
            Stage::Hold,
            TaskAction::Show(Scene::PriorityGo, GO_MILLIS),
        ),
        (TaskKind::Priority, Stage::Yield) => (
            Stage::Clear,
            TaskAction::Show(Scene::PriorityClear, CLEAR_MILLIS),
        ),
        (TaskKind::Priority, _) => if lockout {
            (Stage::Yield, TaskAction::Show(Scene::PriorityYield, YIELD_MILLIS))
        } else {
            (Stage::Hold, TaskAction::Poll(PRIORITY_POLL_MILLIS))
        },
    }
}

/// The stages a task of each kind passes through.
pub open spec fn stage_of_kind(kind: TaskKind, stage: Stage) -> bool {
    match kind {
        TaskKind::Normal => stage != Stage::Hold,
        TaskKind::Flash => stage != Stage::Attention && stage != Stage::Go,
        TaskKind::Priority => stage != Stage::Go,
    }
}

pub struct ApproachTask {
    kind: TaskKind,
    stage: Stage,
}

impl ApproachTask {
    pub closed spec fn spec_kind(&self) -> TaskKind {
        self.kind
    }

    pub closed spec fn spec_stage(&self) -> Stage {
        self.stage
    }

    /// The task holds its mode's permit exactly when it is not idle.
    pub open spec fn holds_permit(&self) -> bool {
        self.spec_stage() != Stage::Idle
    }

    pub open spec fn wf(&self) -> bool {
        stage_of_kind(self.spec_kind(), self.spec_stage())
    }

    pub fn new(kind: TaskKind) -> (r: Self)
        ensures
            r.wf(),
            r.spec_kind() == kind,
            r.spec_stage() == Stage::Idle,
    {
        ApproachTask { kind: kind, stage: Stage::Idle }
    }

    pub fn stage(&self) -> (r: Stage)
        ensures
            r == self.spec_stage(),
    {
        self.stage
    }

    /// Decides the next action, given whether lockout is on, and moves to
    /// the stage it leads to.
    pub fn step(&mut self, lockout: bool) -> (r: TaskAction)
        requires
            old(self).wf(),
        ensures
            final(self).wf(),
            final(self).spec_kind() == old(self).spec_kind(),
            (final(self).spec_stage(), r) == spec_task_step(
                old(self).spec_kind(),
                old(self).spec_stage(),
                lockout,
            ),
    {
        let (stage, action) = match (self.kind, self.stage) {
            (_, Stage::Idle) => (Stage::Granted, TaskAction::Acquire),
            (_, Stage::Clear) => (Stage::Idle, TaskAction::Release),
            (TaskKind::Normal, Stage::Granted) => (
                Stage::Attention,
                TaskAction::Show(Scene::Attention, ATTENTION_MILLIS),
            ),
            (TaskKind::Normal, Stage::Attention) => (
                Stage::Go,
                TaskAction::Show(Scene::Go, GO_MILLIS),
            ),
            (TaskKind::Normal, Stage::Go) => (Stage::Yield, TaskAction::Show(Scene::Yield, YIELD_MILLIS)),
            (TaskKind::Normal, _) => (Stage::Clear, TaskAction::Show(Scene::Clear, CLEAR_MILLIS)),
            (TaskKind::Flash, Stage::Granted) => (Stage::Hold, TaskAction::Show(Scene::Flash, 0)),
            (TaskKind::Flash, Stage::Yield) => (
                Stage::Clear,
                TaskAction::Show(Scene::Clear, CLEAR_MILLIS),
            ),
            (TaskKind::Flash, _) => {
                if lockout {
                    (Stage::Yield, TaskAction::Show(Scene::YieldFlash, YIELD_MILLIS))
                } else {
                    (Stage::Hold, TaskAction::Poll(FLASH_POLL_MILLIS))
                }
            },
            (TaskKind::Priority, Stage::Granted) => (
                Stage::Attention,
                TaskAction::Show(Scene::PriorityAttention, ATTENTION_MILLIS),
            ),
            (TaskKind::Priority, Stage::Attention) => (
                Stage::Hold,
                TaskAction::Show(Scene::PriorityGo, GO_MILLIS),
            ),
            (TaskKind::Priority, Stage::Yield) => (
                Stage::Clear,
                TaskAction::Show(Scene::PriorityClear, CLEAR_MILLIS),
            ),
            (TaskKind::Priority, _) => {
                if lockout {
                    (Stage::Yield, TaskAction::Show(Scene::PriorityYield, YIELD_MILLIS))
                } else {
                    (Stage::Hold, TaskAction::Poll(PRIORITY_POLL_MILLIS))
                }
            },
        };
        self.stage = stage;
        action
    }
}

/// The stage reached from `start` by one step per entry of `lockouts`, each
/// entry saying whether lockout was on at that step.
pub open spec fn task_run(kind: TaskKind, start: Stage, lockouts: Seq<bool>) -> Stage
    decreases lockouts.len(),
{
    if lockouts.len() == 0 {
        start
    } else {
        spec_task_step(kind, task_run(kind, start, lockouts.drop_last()), lockouts.last()).0
    }
}

/// The action of the last step of `lockouts`.
pub open spec fn task_last_action(kind: TaskKind, start: Stage, lockouts: Seq<bool>) -> TaskAction
    recommends
        lockouts.len() > 0,
{
    spec_task_step(kind, task_run(kind, start, lockouts.drop_last()), lockouts.last()).1
}

/// How many steps of `lockouts` took the given action.
pub open spec fn count_task_actions(
    kind: TaskKind,
    start: Stage,
    lockouts: Seq<bool>,
    action: TaskAction,
) -> nat
    decreases lockouts.len(),
{
    if lockouts.len() == 0 {
        0
    } else {
        count_task_actions(kind, start, lockouts.drop_last(), action) + if task_last_action(
            kind,
            start,
            lockouts,
        ) == action {
            1nat
        } else {
            0nat
        }
    }
}

/// Over any run, acquisitions minus releases is the change in whether the
/// task holds a permit; from an idle task it is 0 or 1 after every step, so
/// a task never holds two permits and never releases one it does not hold.
pub proof fn lemma_task_permit_balance(kind: TaskKind, start: Stage, lockouts: Seq<bool>)
    requires
        stage_of_kind(kind, start),
    ensures
        stage_of_kind(kind, task_run(kind, start, lockouts)),
        count_task_actions(kind, start, lockouts, TaskAction::Acquire) - count_task_actions(
            kind,
            start,
            lockouts,
            TaskAction::Release,
        ) == (if task_run(kind, start, lockouts) != Stage::Idle {
            1int
        } else {
            0int
        }) - (if start != Stage::Idle {
            1int
        } else {
            0int
        }),
        start == Stage::Idle ==> 0 <= count_task_actions(kind, start, lockouts, TaskAction::Acquire)
            - count_task_actions(kind, start, lockouts, TaskAction::Release) <= 1,
    decreases lockouts.len(),
{
    if lockouts.len() > 0 {
        lemma_task_permit_balance(kind, start, lockouts.drop_last());
    }
}

/// A normal cycle runs the same whatever lockout shows: acquire, then
/// Attention, Go, Yield and Clear with their default dwells, then release.
/// The permit is held from Attention until Clear has run its dwell, and the
/// dwells add up to 10.5 s.
pub proof fn lemma_normal_cycle(lockouts: Seq<bool>)
    requires
        lockouts.len() == 6,
    ensures
        task_last_action(TaskKind::Normal, Stage::Idle, lockouts.take(1)) == TaskAction::Acquire,
        task_last_action(TaskKind::Normal, Stage::Idle, lockouts.take(2)) == TaskAction::Show(
            Scene::Attention,
            ATTENTION_MILLIS,
        ),
        task_last_action(TaskKind::Normal, Stage::Idle, lockouts.take(3)) == TaskAction::Show(
            Scene::Go,
            GO_MILLIS,
        ),
        task_last_action(TaskKind::Normal, Stage::Idle, lockouts.take(4)) == TaskAction::Show(
            Scene::Yield,
            YIELD_MILLIS,
        ),
        task_last_action(TaskKind::Normal, Stage::Idle, lockouts.take(5)) == TaskAction::Show(
            Scene::Clear,
            CLEAR_MILLIS,
        ),
        task_last_action(TaskKind::Normal, Stage::Idle, lockouts) == TaskAction::Release,
        task_run(TaskKind::Normal, Stage::Idle, lockouts) == Stage::Idle,
        ATTENTION_MILLIS + GO_MILLIS + YIELD_MILLIS + CLEAR_MILLIS == 10_500,
{
    let k = TaskKind::Normal;
    assert(lockouts.take(1).drop_last() =~= lockouts.take(0));
    assert(lockouts.take(2).drop_last() =~= lockouts.take(1));
    assert(lockouts.take(3).drop_last() =~= lockouts.take(2));
    assert(lockouts.take(4).drop_last() =~= lockouts.take(3));
    assert(lockouts.take(5).drop_last() =~= lockouts.take(4));
    assert(lockouts.drop_last() =~= lockouts.take(5));
    assert(task_run(k, Stage::Idle, lockouts.take(0)) == Stage::Idle);
    assert(task_run(k, Stage::Idle, lockouts.take(1)) == Stage::Granted);
    assert(task_run(k, Stage::Idle, lockouts.take(2)) == Stage::Attention);
    assert(task_run(k, Stage::Idle, lockouts.take(3)) == Stage::Go);
    assert(task_run(k, Stage::Idle, lockouts.take(4)) == Stage::Yield);
    assert(task_run(k, Stage::Idle, lockouts.take(5)) == Stage::Clear);
}

/// Number of permits held among the given tasks.
pub open spec fn permits_held(tasks: Seq<ApproachTask>) -> nat
    decreases tasks.len(),
{
    if tasks.len() == 0 {
        0
    } else {
        permits_held(tasks.drop_last()) + if tasks.last().holds_permit() {
            1nat
        } else {
            0nat
        }
    }
}

/// Each task holds at most one permit, so the tasks together hold at most as
/// many permits as there are tasks.
pub proof fn lemma_permits_held_bounded(tasks: Seq<ApproachTask>)
    ensures
        permits_held(tasks) <= tasks.len(),
    decreases tasks.len(),
{
    if tasks.len() > 0 {
        lemma_permits_held_bounded(tasks.drop_last());
    }
}

/// The descriptors after showing a scene on one approach.
pub open spec fn scene_shown(
    scene: Scene,
    traffic: TrafficLights,
    pedestrian: PedestrianLights,
    s: PedestrianCallState,
    d: Seq<OutputStateDescriptor>,
) -> Seq<OutputStateDescriptor> {
    match scene {
        Scene::Attention => pedestrian.attention_shown(traffic.shown(d, true, true, false)),
        Scene::Go => pedestrian.go_shown(s, traffic.shown(d, false, false, true)),
        Scene::Yield => pedestrian.yield_shown(s, traffic.shown(d, false, true, false)),
        Scene::Clear => pedestrian.clear_shown(traffic.shown(d, true, false, false)),
        Scene::Flash => pedestrian.dark_shown(traffic.flashing(d)),
        Scene::YieldFlash => pedestrian.dark_shown(traffic.shown(d, false, true, false)),
        Scene::PriorityAttention => traffic.shown(pedestrian.clear_shown(d), true, true, false),
        Scene::PriorityGo => traffic.shown(d, false, false, true),
        Scene::PriorityYield => traffic.shown(d, false, true, false),
        Scene::PriorityClear => traffic.shown(d, true, false, false),
    }
}

/// The pedestrian call state after showing a scene.
pub open spec fn scene_call_state(scene: Scene, s: PedestrianCallState) -> PedestrianCallState {
    match scene {
        Scene::Attention => PedestrianCallState { active: true, ..s },
        Scene::Go => entered_go(s),
        Scene::Flash | Scene::YieldFlash => deactivated(s),
        _ => s,
    }
}

/// Drives the traffic and pedestrian heads of one approach into a scene.
pub fn show_scene(
    scene: Scene,
    traffic: &TrafficLights,
    pedestrian: &mut PedestrianLights,
    lights: &mut TimedOutputMasker,
)
    ensures
        final(pedestrian).same_pins(*old(pedestrian)),
        final(pedestrian).state() == scene_call_state(scene, old(pedestrian).state()),
        final(lights).wf() == old(lights).wf(),
        final(lights).counter() == old(lights).counter(),
        final(lights).active_lows() == old(lights).active_lows(),
        final(lights).descriptors() == scene_shown(
            scene,
            *traffic,
            *old(pedestrian),
            old(pedestrian).state(),
            old(lights).descriptors(),
        ),
{
    match scene {
        Scene::Attention => {
            traffic.go_attention(lights);
            pedestrian.go_attention(lights);
        },
        Scene::Go => {
            traffic.go_go(lights);
            pedestrian.go_go(lights);
        },
        Scene::Yield => {
            traffic.go_yield(lights);
            pedestrian.go_yield(lights);
        },
        Scene::Clear => {
            traffic.go_clear(lights);
            pedestrian.go_clear(lights);
        },
        Scene::Flash => {
            traffic.go_flash(lights);
            pedestrian.go_flash(lights);
        },
        Scene::YieldFlash => {
            traffic.go_yield_flash(lights);
            pedestrian.go_yield_flash(lights);
        },
        Scene::PriorityAttention => {
            pedestrian.go_clear(lights);
            traffic.go_attention(lights);
        },
        Scene::PriorityGo => {
            traffic.go_go(lights);
        },
        Scene::PriorityYield => {
            traffic.go_yield(lights);
        },
        Scene::PriorityClear => {
            traffic.go_clear(lights);
        },
    }
}

} // verus!
