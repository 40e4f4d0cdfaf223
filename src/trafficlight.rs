//! The per-approach phase machine: current phase, its dwell time, and whether
//! it needs a crossing permit.
//!
//! A permit is taken on the transition into the first phase that needs one
//! and given back on the transition out of the last, so an approach never
//! holds two permits and never lets go of one mid-crossing.
use vstd::prelude::*;

verus! {

#[derive(Clone, Copy, Debug, PartialEq, Eq, Structural)]
pub enum Phase {
    Stop,
    Attention,
    Go,
    Yield,
    ClearCrossing,
    FlashOn,
    FlashOff,
}

/// What the caller must do with the crossing permit around a transition.
#[derive(Clone, Copy, Debug, PartialEq, Eq, Structural)]
pub enum PermitAction {
    /// Wait for a permit before entering the next phase.
    Acquire,
    /// Give the permit back after leaving the current phase.
    Release,
    /// Nothing to do.
    Keep,
}

pub open spec fn phase_needs_permit(phase: Phase) -> bool {
    match phase {
        Phase::Attention | Phase::Go | Phase::Yield | Phase::ClearCrossing => true,
        Phase::Stop | Phase::FlashOn | Phase::FlashOff => false,
    }
}

/// The transition table. Free-run cycles Stop, Attention, Go, Yield,
/// ClearCrossing; maintenance mode leads from Stop and ClearCrossing into
/// alternating FlashOn and FlashOff, which go to ClearCrossing once
/// maintenance mode ends.
pub open spec fn spec_next_phase(phase: Phase, maintenance_mode: bool) -> Phase {
    match (phase, maintenance_mode) {
        (Phase::Stop, false) => Phase::Attention,
        (Phase::Attention, _) => Phase::Go,
        (Phase::Go, _) => Phase::Yield,
        (Phase::Yield, _) => Phase::ClearCrossing,
        (Phase::ClearCrossing, false) => Phase::Stop,
        (Phase::FlashOn, false) => Phase::ClearCrossing,
        (Phase::FlashOff, false) => Phase::ClearCrossing,
        (Phase::Stop, true) => Phase::FlashOn,
        (Phase::ClearCrossing, true) => Phase::FlashOn,
        (Phase::FlashOn, true) => Phase::FlashOff,
        (Phase::FlashOff, true) => Phase::FlashOn,
    }
}

/// The permit action for a transition into `next` while holding a permit or not.
pub open spec fn permit_action_for(have_permit: bool, next: Phase) -> PermitAction {
    if !have_permit && phase_needs_permit(next) {
        PermitAction::Acquire
    } else if have_permit && !phase_needs_permit(next) {
        PermitAction::Release
    } else {
        PermitAction::Keep
    }
}

pub open spec fn spec_red(phase: Phase) -> bool {
    match phase {
        Phase::Stop | Phase::Attention | Phase::ClearCrossing => true,
        _ => false,
    }
}

pub open spec fn spec_amber(phase: Phase) -> bool {
    match phase {
        Phase::Attention | Phase::Yield | Phase::FlashOn => true,
        _ => false,
    }
}

pub open spec fn spec_green(phase: Phase) -> bool {
    phase == Phase::Go
}

/// Default dwell of Stop, in milliseconds.
pub const STOP_MILLIS: u64 = 10_000;

/// Default dwell of Attention, in milliseconds.
pub const ATTENTION_MILLIS: u64 = 1_500;

/// Default dwell of Go, in milliseconds.
pub const GO_MILLIS: u64 = 4_000;

/// Default dwell of Yield, in milliseconds.
pub const YIELD_MILLIS: u64 = 3_000;

/// Default dwell of ClearCrossing, in milliseconds.
pub const CLEAR_MILLIS: u64 = 2_000;

/// Default dwell of each flash half-period, in milliseconds.
pub const FLASH_MILLIS: u64 = 1_000;

/// Dwell time of each phase, in milliseconds.
pub open spec fn spec_phase_time_millis(phase: Phase) -> u64 {
    match phase {
        Phase::Stop => STOP_MILLIS,
        Phase::Attention => ATTENTION_MILLIS,
        Phase::Go => GO_MILLIS,
        Phase::Yield => YIELD_MILLIS,
        Phase::ClearCrossing => CLEAR_MILLIS,
        Phase::FlashOn | Phase::FlashOff => FLASH_MILLIS,
    }
}

pub fn needs_permit(phase: &Phase) -> (r: bool)
    ensures
        r == phase_needs_permit(*phase),
{
    match phase {
        Phase::Attention | Phase::Yield | Phase::Go | Phase::ClearCrossing => true,
        Phase::Stop | Phase::FlashOn | Phase::FlashOff => false,
    }
}

/// The phase reached from `start` by one transition per entry of `modes`,
/// each entry saying whether maintenance mode was on at that transition.
pub open spec fn run_phases(start: Phase, modes: Seq<bool>) -> Phase
    decreases modes.len(),
{
    if modes.len() == 0 {
        start
    } else {
        spec_next_phase(run_phases(start, modes.drop_last()), modes.last())
    }
}

/// The permit action taken at the last transition of `modes`, for an
/// approach that holds a permit exactly while its phase needs one.
pub open spec fn last_action(start: Phase, modes: Seq<bool>) -> PermitAction
    recommends
        modes.len() > 0,
{
    let before = run_phases(start, modes.drop_last());
    permit_action_for(phase_needs_permit(before), spec_next_phase(before, modes.last()))
}

/// How many of the transitions of `modes` took the given action.
pub open spec fn count_actions(start: Phase, modes: Seq<bool>, action: PermitAction) -> nat
    decreases modes.len(),
{
    if modes.len() == 0 {
        0
    } else {
        count_actions(start, modes.drop_last(), action) + if last_action(start, modes) == action {
            1nat
        } else {
            0nat
        }
    }
}

/// Over any run of transitions, permits acquired minus permits released is
/// the change in whether the phase needs a permit. From a light that holds
/// none, it is 0 or 1 after every transition: an approach never holds two
/// permits and never releases one it does not hold.
pub proof fn lemma_permit_balance(start: Phase, modes: Seq<bool>)
    ensures
        count_actions(start, modes, PermitAction::Acquire) - count_actions(
            start,
            modes,
            PermitAction::Release,
        ) == (if phase_needs_permit(run_phases(start, modes)) {
            1int
        } else {
            0int
        }) - (if phase_needs_permit(start) {
            1int
        } else {
            0int
        }),
        !phase_needs_permit(start) ==> 0 <= count_actions(start, modes, PermitAction::Acquire)
            - count_actions(start, modes, PermitAction::Release) <= 1,
    decreases modes.len(),
{
    if modes.len() > 0 {
        lemma_permit_balance(start, modes.drop_last());
    }
}

/// Number of the given lights that hold a permit.
pub open spec fn lights_holding(lights: Seq<TrafficLight>) -> nat
    decreases lights.len(),
{
    if lights.len() == 0 {
        0
    } else {
        lights_holding(lights.drop_last()) + if lights.last().holds_permit() {
            1nat
        } else {
            0nat
        }
    }
}

/// Free permits of a semaphore after the caller carries out `action`.
pub open spec fn available_after(available: int, action: PermitAction) -> int {
    match action {
        PermitAction::Acquire => available - 1,
        PermitAction::Release => available + 1,
        PermitAction::Keep => available,
    }
}

proof fn lemma_holding_update(lights: Seq<TrafficLight>, i: int, light: TrafficLight)
    requires
        0 <= i < lights.len(),
    ensures
        lights_holding(lights.update(i, light)) + (if lights[i].holds_permit() {
            1int
        } else {
            0int
        }) == lights_holding(lights) + (if light.holds_permit() {
            1int
        } else {
            0int
        }),
    decreases lights.len(),
{
    let updated = lights.update(i, light);
    if i < lights.len() - 1 {
        lemma_holding_update(lights.drop_last(), i, light);
        assert(updated.drop_last() =~= lights.drop_last().update(i, light));
    } else {
        assert(updated.drop_last() =~= lights.drop_last());
    }
}

proof fn lemma_two_holders(lights: Seq<TrafficLight>, j: int, k: int)
    requires
        0 <= j < k < lights.len(),
        lights[j].holds_permit(),
        lights[k].holds_permit(),
    ensures
        lights_holding(lights) >= 2,
    decreases lights.len(),
{
    if k < lights.len() - 1 {
        lemma_two_holders(lights.drop_last(), j, k);
    } else {
        lemma_one_holder(lights.drop_last(), j);
    }
}

proof fn lemma_one_holder(lights: Seq<TrafficLight>, j: int)
    requires
        0 <= j < lights.len(),
        lights[j].holds_permit(),
    ensures
        lights_holding(lights) >= 1,
    decreases lights.len(),
{
    if j < lights.len() - 1 {
        lemma_one_holder(lights.drop_last(), j);
    }
}

/// Lights that share one semaphore with a single permit exclude each other.
/// If the free permits plus the permits the lights hold make one, and one
/// light moves to its next phase (its acquisition completing only while a
/// permit is free), then the count still makes one after the caller carries
/// out the returned action: at most one light holds a permit, and no two
/// lights are green at once.
pub proof fn lemma_crossing_exclusive(
    available: int,
    lights: Seq<TrafficLight>,
    i: int,
    maintenance_mode: bool,
    after: TrafficLight,
)
    requires
        0 <= i < lights.len(),
        forall|j: int| 0 <= j < lights.len() ==> #[trigger] lights[j].wf(),
        available >= 0,
        available + lights_holding(lights) == 1,
        after.spec_phase() == spec_next_phase(lights[i].spec_phase(), maintenance_mode),
        after.holds_permit() == phase_needs_permit(after.spec_phase()),
        permit_action_for(lights[i].holds_permit(), after.spec_phase()) == PermitAction::Acquire
            ==> available >= 1,
    ensures
        ({
            let action = permit_action_for(lights[i].holds_permit(), after.spec_phase());
            let moved = lights.update(i, after);
            &&& available_after(available, action) >= 0
            &&& available_after(available, action) + lights_holding(moved) == 1
            &&& forall|j: int, k: int|
                0 <= j < k < moved.len() ==> !(#[trigger] moved[j].holds_permit()
                    && #[trigger] moved[k].holds_permit())
            &&& forall|j: int, k: int|
                0 <= j < k < moved.len() ==> !(spec_green(#[trigger] moved[j].spec_phase())
                    && spec_green(#[trigger] moved[k].spec_phase()))
        }),
{
    let action = permit_action_for(lights[i].holds_permit(), after.spec_phase());
    let moved = lights.update(i, after);
    lemma_holding_update(lights, i, after);
    assert(lights[i].wf());
    assert forall|j: int, k: int|
        0 <= j < k < moved.len() implies !(#[trigger] moved[j].holds_permit()
            && #[trigger] moved[k].holds_permit()) by {
        if moved[j].holds_permit() && moved[k].holds_permit() {
            lemma_two_holders(moved, j, k);
        }
    }
    assert forall|j: int, k: int|
        0 <= j < k < moved.len() implies !(spec_green(#[trigger] moved[j].spec_phase())
            && spec_green(#[trigger] moved[k].spec_phase())) by {
        if spec_green(moved[j].spec_phase()) && spec_green(moved[k].spec_phase()) {
            assert(moved[j].wf() && moved[k].wf()) by {
                assert(after.wf());
            }
            lemma_two_holders(moved, j, k);
        }
    }
}

#[derive(Debug)]
pub struct TrafficLight {
    phase: Phase,
    have_permit: bool,
}

impl TrafficLight {
    pub closed spec fn spec_phase(&self) -> Phase {
        self.phase
    }

    pub closed spec fn holds_permit(&self) -> bool {
        self.have_permit
    }

    /// The light holds a permit exactly while its phase needs one.
    pub closed spec fn wf(&self) -> bool {
        self.have_permit == phase_needs_permit(self.phase)
    }

    pub fn new() -> (r: Self)
        ensures
            r.wf(),
            r.spec_phase() == Phase::Stop,
            !r.holds_permit(),
    {
        TrafficLight { phase: Phase::Stop, have_permit: false }
    }

    pub fn phase(&self) -> (r: Phase)
        ensures
            r == self.spec_phase(),
    {
        self.phase
    }

    /// The phase that follows the current one, without changing phase.
    pub fn next_phase(&self, maintenance_mode: bool) -> (r: Phase)
        ensures
            r == spec_next_phase(self.spec_phase(), maintenance_mode),
    {
        match (&self.phase, maintenance_mode) {
            (Phase::Stop, false) => Phase::Attention,
            (Phase::Attention, false) => Phase::Go,
            (Phase::Go, false) => Phase::Yield,
            (Phase::Yield, false) => Phase::ClearCrossing,
            (Phase::ClearCrossing, false) => Phase::Stop,
            (Phase::FlashOn, false) => Phase::ClearCrossing,
            (Phase::FlashOff, false) => Phase::ClearCrossing,
            (Phase::Stop, true) => Phase::FlashOn,
            (Phase::Attention, true) => Phase::Go,
            (Phase::Go, true) => Phase::Yield,
            (Phase::Yield, true) => Phase::ClearCrossing,
            (Phase::ClearCrossing, true) => Phase::FlashOn,
            (Phase::FlashOn, true) => Phase::FlashOff,
            (Phase::FlashOff, true) => Phase::FlashOn,
        }
    }

    /// What must happen to the permit on the next transition: `Acquire` must
    /// be completed before `go_to_next_phase` is called.
    pub fn permit_action(&self, maintenance_mode: bool) -> (r: PermitAction)
        ensures
            r == permit_action_for(
                self.holds_permit(),
                spec_next_phase(self.spec_phase(), maintenance_mode),
            ),
    {
        let next_phase = self.next_phase(maintenance_mode);
        match (self.have_permit, needs_permit(&next_phase)) {
            (false, true) => PermitAction::Acquire,
            (true, false) => PermitAction::Release,
            (false, false) | (true, true) => PermitAction::Keep,
        }
    }

    /// Moves to the next phase and records the permit change. The result is
    /// the action the transition stands for: an `Acquire` has already been
    /// waited for by the caller, a `Release` is the caller's to carry out.
    pub fn go_to_next_phase(&mut self, maintenance_mode: bool) -> (r: PermitAction)
        requires
            old(self).wf(),
        ensures
            final(self).wf(),
            final(self).spec_phase() == spec_next_phase(old(self).spec_phase(), maintenance_mode),
            final(self).holds_permit() == phase_needs_permit(final(self).spec_phase()),
            r == permit_action_for(old(self).holds_permit(), final(self).spec_phase()),
    {
        let next_phase: Phase = self.next_phase(maintenance_mode);
        let action = self.permit_action(maintenance_mode);
        match action {
            PermitAction::Acquire => {
                self.have_permit = true;
            },
            PermitAction::Release => {
                self.have_permit = false;
            },
            PermitAction::Keep => {},
        }
        self.phase = next_phase;
        action
    }

    pub fn red(&self) -> (r: bool)
        ensures
            r == spec_red(self.spec_phase()),
    {
        match self.phase {
            Phase::Stop | Phase::Attention | Phase::ClearCrossing => true,
            Phase::Yield | Phase::Go | Phase::FlashOn | Phase::FlashOff => false,
        }
    }

    pub fn amber(&self) -> (r: bool)
        ensures
            r == spec_amber(self.spec_phase()),
    {
        match self.phase {
            Phase::Yield | Phase::Attention | Phase::FlashOn => true,
            Phase::Stop | Phase::ClearCrossing | Phase::Go | Phase::FlashOff => false,
        }
    }

    pub fn green(&self) -> (r: bool)
        ensures
            r == spec_green(self.spec_phase()),
    {
        match self.phase {
            Phase::Go => true,
            Phase::Stop
            | Phase::ClearCrossing
            | Phase::Yield
            | Phase::Attention
            | Phase::FlashOn
            | Phase::FlashOff => false,
        }
    }

    /// Dwell time of the current phase in milliseconds.
    pub fn phase_time_millis(&self) -> (r: u64)
        ensures
            r == spec_phase_time_millis(self.spec_phase()),
    {
        match self.phase {
            Phase::Stop => STOP_MILLIS,
            Phase::Attention => ATTENTION_MILLIS,
            Phase::Go => GO_MILLIS,
            Phase::Yield => YIELD_MILLIS,
            Phase::ClearCrossing => CLEAR_MILLIS,
            Phase::FlashOn | Phase::FlashOff => FLASH_MILLIS,
        }
    }

    /// Dwell time of the current phase in whole seconds, rounded down.
    pub fn phase_time_seconds(&self) -> (r: u64)
        ensures
            r == spec_phase_time_millis(self.spec_phase()) / 1000,
    {
        self.phase_time_millis() / 1000
    }
}

} // verus!
