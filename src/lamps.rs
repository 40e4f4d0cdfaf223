//! Lamp groups: the traffic and pedestrian heads of one approach, each
//! writing whole descriptors for its pins into the output masker.
//!
//! The pedestrian head also keeps the call latch: a call made while the head
//! runs crossing cycles is granted a walk signal at the next Go, and a walk
//! granted at Go is carried through the following Yield.
use crate::timed_output_masker::{OutputStateDescriptor, Pins, TimedOutputMasker};
use vstd::prelude::*;

verus! {

/// A descriptor with the given cycle subscriptions.
pub open spec fn descriptor(on: bool, slow: bool, fast: bool, pip: bool) -> OutputStateDescriptor {
    OutputStateDescriptor {
        on,
        subject_to_slow_cycle: slow,
        subject_to_fast_cycle: fast,
        subject_to_pip_timer: pip,
    }
}

/// The descriptors after three steady writes, in order.
pub open spec fn steady3(
    d: Seq<OutputStateDescriptor>,
    pin0: Pins,
    on0: bool,
    pin1: Pins,
    on1: bool,
    pin2: Pins,
    on2: bool,
) -> Seq<OutputStateDescriptor> {
    d.update(pin0.index(), OutputStateDescriptor::steady(on0)).update(
        pin1.index(),
        OutputStateDescriptor::steady(on1),
    ).update(pin2.index(), OutputStateDescriptor::steady(on2))
}

/// A masker write that changes nothing but descriptors.
pub open spec fn only_descriptors_change(
    before: TimedOutputMasker,
    after: TimedOutputMasker,
) -> bool {
    &&& after.wf() == before.wf()
    &&& after.counter() == before.counter()
    &&& after.active_lows() == before.active_lows()
}

/// The red, amber and green lamps of one approach.
#[derive(Clone, Copy, Debug)]
pub struct TrafficLights {
    red: Pins,
    amber: Pins,
    green: Pins,
}

impl TrafficLights {
    pub closed spec fn red_pin(&self) -> Pins {
        self.red
    }

    pub closed spec fn amber_pin(&self) -> Pins {
        self.amber
    }

    pub closed spec fn green_pin(&self) -> Pins {
        self.green
    }

    /// The descriptors after showing red, amber and green as given.
    pub open spec fn shown(
        &self,
        d: Seq<OutputStateDescriptor>,
        red: bool,
        amber: bool,
        green: bool,
    ) -> Seq<OutputStateDescriptor> {
        steady3(d, self.red_pin(), red, self.amber_pin(), amber, self.green_pin(), green)
    }

    /// The descriptors after `go_flash`.
    pub open spec fn flashing(&self, d: Seq<OutputStateDescriptor>) -> Seq<OutputStateDescriptor> {
        d.update(self.red_pin().index(), OutputStateDescriptor::steady(false)).update(
            self.green_pin().index(),
            OutputStateDescriptor::steady(false),
        ).update(self.amber_pin().index(), descriptor(true, true, false, false))
    }

    pub fn new(red: Pins, amber: Pins, green: Pins) -> (r: Self)
        ensures
            r.red_pin() == red,
            r.amber_pin() == amber,
            r.green_pin() == green,
    {
        TrafficLights { red: red, amber: amber, green: green }
    }

    /// Red and amber together.
    pub fn go_attention(&self, lights: &mut TimedOutputMasker)
        ensures
            only_descriptors_change(*old(lights), *final(lights)),
            final(lights).descriptors() == self.shown(old(lights).descriptors(), true, true, false),
    {
        lights.set_on_off3(self.red, true, self.amber, true, self.green, false);
    }

    /// Green only.
    pub fn go_go(&self, lights: &mut TimedOutputMasker)
        ensures
            only_descriptors_change(*old(lights), *final(lights)),
            final(lights).descriptors() == self.shown(old(lights).descriptors(), false, false, true),
    {
        lights.set_on_off3(self.red, false, self.amber, false, self.green, true);
    }

    /// Amber blinking on the slow cycle, red and green off.
    pub fn go_flash(&self, lights: &mut TimedOutputMasker)
        ensures
            only_descriptors_change(*old(lights), *final(lights)),
            final(lights).descriptors() == self.flashing(old(lights).descriptors()),
    {
        lights.set_on_off2(self.red, false, self.green, false);
        lights.set_pin(self.amber, true, true, false, false);
    }

    /// Amber only.
    pub fn go_yield(&self, lights: &mut TimedOutputMasker)
        ensures
            only_descriptors_change(*old(lights), *final(lights)),
            final(lights).descriptors() == self.shown(old(lights).descriptors(), false, true, false),
    {
        lights.set_on_off3(self.red, false, self.amber, true, self.green, false);
    }

    /// Leaving flash mode: amber only, as in an ordinary yield.
    pub fn go_yield_flash(&self, lights: &mut TimedOutputMasker)
        ensures
            only_descriptors_change(*old(lights), *final(lights)),
            final(lights).descriptors() == self.shown(old(lights).descriptors(), false, true, false),
    {
        self.go_yield(lights);
    }

    /// Red only.
    pub fn go_clear(&self, lights: &mut TimedOutputMasker)
        ensures
            only_descriptors_change(*old(lights), *final(lights)),
            final(lights).descriptors() == self.shown(old(lights).descriptors(), true, false, false),
    {
        lights.set_on_off3(self.red, true, self.amber, false, self.green, false);
    }
}

/// The sticky state of a pedestrian head.
#[derive(Clone, Copy, Debug, PartialEq, Eq, Structural)]
pub struct PedestrianCallState {
    /// The head is running crossing cycles.
    pub active: bool,
    /// A call arrived since the last Go began.
    pub promise_made: bool,
    /// The last Go granted a walk, which the following Yield carries on.
    pub old_promise: bool,
}

/// The call state after a call: latched only while the head is active.
pub open spec fn called(s: PedestrianCallState) -> PedestrianCallState {
    if s.active {
        PedestrianCallState { promise_made: true, ..s }
    } else {
        s
    }
}

/// The call state after entering Go: the latched call becomes the walk grant.
pub open spec fn entered_go(s: PedestrianCallState) -> PedestrianCallState {
    PedestrianCallState {
        old_promise: s.active && s.promise_made,
        promise_made: false,
        ..s
    }
}

/// The call state after leaving crossing cycles (flash mode).
pub open spec fn deactivated(s: PedestrianCallState) -> PedestrianCallState {
    PedestrianCallState { active: false, promise_made: false, old_promise: false }
}

/// The red and green walk lamps, beeper and call indicator of one approach,
/// with the call latch.
#[derive(Debug)]
pub struct PedestrianLights {
    red: Pins,
    green: Pins,
    beeper: Pins,
    promise: Pins,
    call: PedestrianCallState,
}

impl PedestrianLights {
    pub closed spec fn red_pin(&self) -> Pins {
        self.red
    }

    pub closed spec fn green_pin(&self) -> Pins {
        self.green
    }

    pub closed spec fn beeper_pin(&self) -> Pins {
        self.beeper
    }

    pub closed spec fn promise_pin(&self) -> Pins {
        self.promise
    }

    pub closed spec fn state(&self) -> PedestrianCallState {
        self.call
    }

    /// The descriptors after a call, given the state and descriptors before
    /// it: a call while active lights the indicator and pips the beeper.
    pub open spec fn call_indicated(
        &self,
        s: PedestrianCallState,
        d: Seq<OutputStateDescriptor>,
    ) -> Seq<OutputStateDescriptor> {
        if s.active {
            d.update(self.promise_pin().index(), OutputStateDescriptor::steady(true)).update(
                self.beeper_pin().index(),
                descriptor(true, false, false, true),
            )
        } else {
            d
        }
    }

    /// The descriptors after `go_attention`.
    pub open spec fn attention_shown(&self, d: Seq<OutputStateDescriptor>) -> Seq<
        OutputStateDescriptor,
    > {
        d.update(self.red_pin().index(), OutputStateDescriptor::steady(true)).update(
            self.green_pin().index(),
            OutputStateDescriptor::steady(false),
        )
    }

    /// The descriptors after `go_go` from call state `s`: walk with the
    /// beeper on the fast cycle exactly when a call was latched while active.
    pub open spec fn go_shown(&self, s: PedestrianCallState, d: Seq<OutputStateDescriptor>) -> Seq<
        OutputStateDescriptor,
    > {
        let walk = s.active && s.promise_made;
        d.update(self.red_pin().index(), OutputStateDescriptor::steady(!walk)).update(
            self.green_pin().index(),
            OutputStateDescriptor::steady(walk),
        ).update(self.beeper_pin().index(), descriptor(walk, false, true, false)).update(
            self.promise_pin().index(),
            OutputStateDescriptor::steady(false),
        )
    }

    /// The descriptors after `go_yield` from call state `s`: a walk granted
    /// at Go blinks on, with the beeper.
    pub open spec fn yield_shown(
        &self,
        s: PedestrianCallState,
        d: Seq<OutputStateDescriptor>,
    ) -> Seq<OutputStateDescriptor> {
        let walk = s.active && s.old_promise;
        d.update(self.beeper_pin().index(), descriptor(walk, true, true, false)).update(
            self.red_pin().index(),
            OutputStateDescriptor::steady(!walk),
        ).update(self.green_pin().index(), descriptor(walk, true, false, false))
    }

    /// The descriptors after `go_flash`: every lamp of the head dark.
    pub open spec fn dark_shown(&self, d: Seq<OutputStateDescriptor>) -> Seq<OutputStateDescriptor> {
        steady3(d, self.red_pin(), false, self.green_pin(), false, self.beeper_pin(), false).update(
            self.promise_pin().index(),
            OutputStateDescriptor::steady(false),
        )
    }

    /// The descriptors after `go_clear`: don't walk, beeper off.
    pub open spec fn clear_shown(&self, d: Seq<OutputStateDescriptor>) -> Seq<OutputStateDescriptor> {
        steady3(d, self.red_pin(), true, self.green_pin(), false, self.beeper_pin(), false)
    }

    pub fn new(red: Pins, green: Pins, beeper: Pins, promise: Pins) -> (r: Self)
        ensures
            r.red_pin() == red,
            r.green_pin() == green,
            r.beeper_pin() == beeper,
            r.promise_pin() == promise,
            r.state() == (PedestrianCallState {
                active: false,
                promise_made: false,
                old_promise: false,
            }),
    {
        PedestrianLights {
            red: red,
            green: green,
            beeper: beeper,
            promise: promise,
            call: PedestrianCallState { active: false, promise_made: false, old_promise: false },
        }
    }

    pub fn call_state(&self) -> (r: PedestrianCallState)
        ensures
            r == self.state(),
    {
        self.call
    }

    /// Don't walk, and start running crossing cycles.
    pub fn go_attention(&mut self, lights: &mut TimedOutputMasker)
        ensures
            final(self).state() == (PedestrianCallState { active: true, ..old(self).state() }),
            final(self).same_pins(*old(self)),
            only_descriptors_change(*old(lights), *final(lights)),
            final(lights).descriptors() == old(self).attention_shown(old(lights).descriptors()),
    {
        lights.set_on_off2(self.red, true, self.green, false);
        self.call.active = true;
    }

    /// Walk with the beeper on the fast cycle if a call was latched while
    /// active; otherwise don't walk. The call is consumed and the indicator
    /// goes out.
    pub fn go_go(&mut self, lights: &mut TimedOutputMasker)
        ensures
            final(self).state() == entered_go(old(self).state()),
            final(self).same_pins(*old(self)),
            only_descriptors_change(*old(lights), *final(lights)),
            final(lights).descriptors() == old(self).go_shown(old(self).state(), old(lights).descriptors()),
    {
        let active_promise = self.call.active && self.call.promise_made;
        lights.set_on_off2(self.red, !active_promise, self.green, active_promise);
        lights.set_pin(self.beeper, active_promise, false, true, false);
        self.call.old_promise = active_promise;
        self.call.promise_made = false;
        lights.set_on_off(self.promise, false);
    }

    /// All lamps dark and the latch cleared: the head stops running crossing
    /// cycles.
    pub fn go_flash(&mut self, lights: &mut TimedOutputMasker)
        ensures
            final(self).state() == deactivated(old(self).state()),
            final(self).same_pins(*old(self)),
            only_descriptors_change(*old(lights), *final(lights)),
            final(lights).descriptors() == old(self).dark_shown(old(lights).descriptors()),
    {
        lights.set_on_off3(self.red, false, self.green, false, self.beeper, false);
        self.call.old_promise = false;
        self.call.active = false;
        self.call.promise_made = false;
        lights.set_on_off(self.promise, false);
    }

    /// Leaving flash mode: as dark as flash itself.
    pub fn go_yield_flash(&mut self, lights: &mut TimedOutputMasker)
        ensures
            final(self).state() == deactivated(old(self).state()),
            final(self).same_pins(*old(self)),
            only_descriptors_change(*old(lights), *final(lights)),
            final(lights).descriptors() == old(self).dark_shown(old(lights).descriptors()),
    {
        self.go_flash(lights);
    }

    /// A walk granted at Go goes on through Yield, green and beeper blinking;
    /// otherwise don't walk.
    pub fn go_yield(&mut self, lights: &mut TimedOutputMasker)
        ensures
            final(self).state() == old(self).state(),
            final(self).same_pins(*old(self)),
            only_descriptors_change(*old(lights), *final(lights)),
            final(lights).descriptors() == old(self).yield_shown(old(self).state(), old(lights).descriptors()),
    {
        let active_old_promise = self.call.active && self.call.old_promise;
        lights.set_pin(self.beeper, active_old_promise, true, true, false);
        lights.set_on_off(self.red, !active_old_promise);
        lights.set_pin(self.green, active_old_promise, true, false, false);
    }

    /// Don't walk, beeper off.
    pub fn go_clear(&mut self, lights: &mut TimedOutputMasker)
        ensures
            final(self).state() == old(self).state(),
            final(self).same_pins(*old(self)),
            only_descriptors_change(*old(lights), *final(lights)),
            final(lights).descriptors() == old(self).clear_shown(old(lights).descriptors()),
    {
        lights.set_on_off2(self.red, true, self.green, false);
        lights.set_on_off(self.beeper, false);
    }

    /// A pedestrian call. While active it is latched until the next Go, the
    /// indicator lights and the beeper pips; otherwise it is ignored.
    pub fn make_promise(&mut self, lights: &mut TimedOutputMasker)
        ensures
            final(self).state() == called(old(self).state()),
            final(self).same_pins(*old(self)),
            only_descriptors_change(*old(lights), *final(lights)),
            final(lights).descriptors() == old(self).call_indicated(
                old(self).state(),
                old(lights).descriptors(),
            ),
    {
        if self.call.active {
            self.call.promise_made = true;
            lights.set_on_off(self.promise, true);
            lights.set_pin(self.beeper, true, false, false, true);
        }
    }

    pub open spec fn same_pins(&self, other: Self) -> bool {
        &&& self.red_pin() == other.red_pin()
        &&& self.green_pin() == other.green_pin()
        &&& self.beeper_pin() == other.beeper_pin()
        &&& self.promise_pin() == other.promise_pin()
    }
}

/// Calling twice has the effect of calling once: the latch is a flag, not a
/// counter, and the lamps show the same.
pub proof fn lemma_call_idempotent(
    lights: PedestrianLights,
    s: PedestrianCallState,
    d: Seq<OutputStateDescriptor>,
)
    requires
        d.len() == crate::timed_output_masker::PIN_COUNT,
    ensures
        called(called(s)) == called(s),
        lights.call_indicated(called(s), lights.call_indicated(s, d)) == lights.call_indicated(
            s,
            d,
        ),
{
    if s.active {
        let once = lights.call_indicated(s, d);
        let p = lights.promise_pin().index();
        let b = lights.beeper_pin().index();
        assert(0 <= p < d.len() && 0 <= b < d.len()) by {
            lights.promise_pin().lemma_index_in_range();
            lights.beeper_pin().lemma_index_in_range();
        }
        assert(lights.call_indicated(called(s), once) =~= once);
    }
}

/// The call state after `k` calls.
pub open spec fn called_times(s: PedestrianCallState, k: nat) -> PedestrianCallState
    decreases k,
{
    if k == 0 {
        s
    } else {
        called(called_times(s, (k - 1) as nat))
    }
}

/// The descriptors after `k` calls, from call state `s` and descriptors `d`.
pub open spec fn indicated_times(
    lights: PedestrianLights,
    s: PedestrianCallState,
    d: Seq<OutputStateDescriptor>,
    k: nat,
) -> Seq<OutputStateDescriptor>
    decreases k,
{
    if k == 0 {
        d
    } else {
        lights.call_indicated(
            called_times(s, (k - 1) as nat),
            indicated_times(lights, s, d, (k - 1) as nat),
        )
    }
}

/// Any positive number of calls has the effect of one, on the call state
/// and on the lamps.
pub proof fn lemma_calls_idempotent(
    lights: PedestrianLights,
    s: PedestrianCallState,
    d: Seq<OutputStateDescriptor>,
    k: nat,
)
    requires
        d.len() == crate::timed_output_masker::PIN_COUNT,
        k >= 1,
    ensures
        called_times(s, k) == called(s),
        indicated_times(lights, s, d, k) == lights.call_indicated(s, d),
    decreases k,
{
    lemma_call_idempotent(lights, s, d);
    let j = (k - 1) as nat;
    if j == 0 {
        assert(called_times(s, 0) == s);
        assert(indicated_times(lights, s, d, 0) == d);
    } else {
        lemma_calls_idempotent(lights, s, d, j);
    }
    assert(called_times(s, k) == called(called_times(s, j)));
    assert(indicated_times(lights, s, d, k) == lights.call_indicated(
        called_times(s, j),
        indicated_times(lights, s, d, j),
    ));
}

} // verus!
