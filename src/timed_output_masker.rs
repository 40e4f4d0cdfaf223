//! Turns a logical description of each lamp into physical output levels.
//!
//! Every lamp has a descriptor: whether it is on, and which of the three
//! shared cycle signals (slow blink, fast blink, short pip) it is subject to.
//! A fixed-rate tick advances one wrapping counter from which all three cycle
//! signals derive, so lamps subject to the same cycle change state in
//! lock-step. Active-low polarity is applied last, per lamp.
use vstd::arithmetic::div_mod::{lemma_add_mod_noop, lemma_add_mod_noop_right};
use vstd::prelude::*;

verus! {

/// Number of physical output pins.
pub const PIN_COUNT: usize = 17;

/// Ticks in one full cycle of the counter.
pub const TICKS_PER_CYCLE: u8 = 100;

/// The physical outputs, in pin order.
#[derive(Clone, Copy, Debug, PartialEq, Eq, Structural)]
pub enum Pins {
    // Left-right lane: traffic lights, pedestrian lights, promise and beeper.
    ARed,
    AAmber,
    AGreen,
    APedestrianRed,
    APedestrianGreen,
    APromise,
    ABeeper,
    // Up-down lane. The board has no beeper for this lane; the pin exists to
    // keep the two lanes symmetric and is wired to an unused output.
    BRed,
    BAmber,
    BGreen,
    BPedestrianRed,
    BPedestrianGreen,
    BPromise,
    BBeeper,
    // Common indicators.
    OnBoardPower,
    Power,
    SwitchingMode,
}

impl Pins {
    /// Position of the pin in the output vector.
    pub open spec fn index(self) -> int {
        match self {
            Pins::ARed => 0,
            Pins::AAmber => 1,
            Pins::AGreen => 2,
            Pins::APedestrianRed => 3,
            Pins::APedestrianGreen => 4,
            Pins::APromise => 5,
            Pins::ABeeper => 6,
            Pins::BRed => 7,
            Pins::BAmber => 8,
            Pins::BGreen => 9,
            Pins::BPedestrianRed => 10,
            Pins::BPedestrianGreen => 11,
            Pins::BPromise => 12,
            Pins::BBeeper => 13,
            Pins::OnBoardPower => 14,
            Pins::Power => 15,
            Pins::SwitchingMode => 16,
        }
    }

    pub proof fn lemma_index_in_range(self)
        ensures
            0 <= self.index() < PIN_COUNT,
    {
    }

    pub fn ordinal(&self) -> (r: usize)
        ensures
            r == self.index(),
            r < PIN_COUNT,
    {
        match self {
            Pins::ARed => 0,
            Pins::AAmber => 1,
            Pins::AGreen => 2,
            Pins::APedestrianRed => 3,
            Pins::APedestrianGreen => 4,
            Pins::APromise => 5,
            Pins::ABeeper => 6,
            Pins::BRed => 7,
            Pins::BAmber => 8,
            Pins::BGreen => 9,
            Pins::BPedestrianRed => 10,
            Pins::BPedestrianGreen => 11,
            Pins::BPromise => 12,
            Pins::BBeeper => 13,
            Pins::OnBoardPower => 14,
            Pins::Power => 15,
            Pins::SwitchingMode => 16,
        }
    }
}

/// What a lamp should show: on or off, and the cycles that gate it.
#[derive(Clone, Copy, Debug, PartialEq, Eq, Structural)]
pub struct OutputStateDescriptor {
    pub on: bool,
    pub subject_to_slow_cycle: bool,
    pub subject_to_fast_cycle: bool,
    pub subject_to_pip_timer: bool,
}

impl OutputStateDescriptor {
    /// A lamp that is off and subject to no cycle.
    pub fn new() -> (r: Self)
        ensures
            r == Self::off(),
    {
        OutputStateDescriptor {
            on: false,
            subject_to_slow_cycle: false,
            subject_to_fast_cycle: false,
            subject_to_pip_timer: false,
        }
    }

    pub open spec fn off() -> Self {
        OutputStateDescriptor {
            on: false,
            subject_to_slow_cycle: false,
            subject_to_fast_cycle: false,
            subject_to_pip_timer: false,
        }
    }

    /// A lamp that is on or off, subject to no cycle.
    pub open spec fn steady(on: bool) -> Self {
        OutputStateDescriptor {
            on,
            subject_to_slow_cycle: false,
            subject_to_fast_cycle: false,
            subject_to_pip_timer: false,
        }
    }
}

/// Slow cycle: a square wave, on for the first half of the period.
pub open spec fn slow_cycle(counter: int) -> bool {
    counter < (TICKS_PER_CYCLE / 2) as int
}

/// Fast cycle: a square wave ten times faster, on in odd tenths.
pub open spec fn fast_cycle(counter: int) -> bool {
    (counter / (TICKS_PER_CYCLE / 10) as int) % 2 == 1
}

/// Pip: a one-tick pulse at the start of each period.
pub open spec fn pip_cycle(counter: int) -> bool {
    counter == 0
}

/// The physical level of one lamp, given the three cycle values.
pub open spec fn masked_level(
    d: OutputStateDescriptor,
    active_low: bool,
    slow: bool,
    fast: bool,
    pip: bool,
) -> bool {
    (d.on && (!d.subject_to_slow_cycle || slow) && (!d.subject_to_fast_cycle || fast) && (
    !d.subject_to_pip_timer || pip)) != active_low
}

/// The physical levels of all lamps at the given counter value.
pub open spec fn masked_outputs(
    descriptors: Seq<OutputStateDescriptor>,
    active_lows: Seq<bool>,
    counter: int,
) -> Seq<bool> {
    Seq::new(
        descriptors.len(),
        |i: int|
            masked_level(
                descriptors[i],
                active_lows[i],
                slow_cycle(counter),
                fast_cycle(counter),
                pip_cycle(counter),
            ),
    )
}

/// The counter value after `t` ticks from a fresh masker.
pub open spec fn counter_at(t: nat) -> int
    decreases t,
{
    if t == 0 {
        TICKS_PER_CYCLE - 1
    } else {
        (counter_at((t - 1) as nat) + 1) % (TICKS_PER_CYCLE as int)
    }
}

/// The output vectors produced by `n` ticks that start from counter `counter`.
pub open spec fn replay(
    descriptors: Seq<OutputStateDescriptor>,
    active_lows: Seq<bool>,
    counter: int,
    n: nat,
) -> Seq<Seq<bool>>
    decreases n,
{
    if n == 0 {
        Seq::empty()
    } else {
        let next = (counter + 1) % (TICKS_PER_CYCLE as int);
        seq![masked_outputs(descriptors, active_lows, next)].add(
            replay(descriptors, active_lows, next, (n - 1) as nat),
        )
    }
}

/// The counter after `t` ticks is `t - 1` modulo the period.
pub proof fn lemma_counter_at(t: nat)
    ensures
        counter_at(t) == (t + TICKS_PER_CYCLE - 1) % (TICKS_PER_CYCLE as int),
    decreases t,
{
    let p = TICKS_PER_CYCLE as int;
    if t > 0 {
        lemma_counter_at((t - 1) as nat);
        lemma_add_mod_noop(t + p - 2, 1, p);
        assert((1int) % p == 1);
    }
}

/// The cycle signals are periodic: after `t` ticks they show what they show
/// after `t mod P` ticks, where `P` is the number of ticks per cycle.
pub proof fn lemma_cycles_periodic(t: nat)
    ensures
        counter_at(t) == counter_at(t % (TICKS_PER_CYCLE as nat)),
        slow_cycle(counter_at(t)) == slow_cycle(counter_at(t % (TICKS_PER_CYCLE as nat))),
        fast_cycle(counter_at(t)) == fast_cycle(counter_at(t % (TICKS_PER_CYCLE as nat))),
        pip_cycle(counter_at(t)) == pip_cycle(counter_at(t % (TICKS_PER_CYCLE as nat))),
{
    let p = TICKS_PER_CYCLE as int;
    lemma_counter_at(t);
    lemma_counter_at(t % (TICKS_PER_CYCLE as nat));
    lemma_add_mod_noop(t as int, p - 1, p);
    lemma_add_mod_noop((t % (TICKS_PER_CYCLE as nat)) as int, p - 1, p);
    assert((t as int % p) % p == t as int % p) by {
        vstd::arithmetic::div_mod::lemma_mod_twice(t as int, p);
    }
}

/// Replaying ticks from a given counter value yields, at step `k`, the
/// masked outputs at counter `counter + k + 1` modulo the period: the output
/// sequence is a function of the descriptors and the counter alone, and it
/// repeats with the period of the counter.
pub proof fn lemma_replay(
    descriptors: Seq<OutputStateDescriptor>,
    active_lows: Seq<bool>,
    counter: int,
    n: nat,
)
    requires
        0 <= counter < TICKS_PER_CYCLE,
    ensures
        replay(descriptors, active_lows, counter, n).len() == n,
        forall|k: int|
            0 <= k < n ==> #[trigger] replay(descriptors, active_lows, counter, n)[k]
                == masked_outputs(
                descriptors,
                active_lows,
                (counter + k + 1) % (TICKS_PER_CYCLE as int),
            ),
        forall|k: int|
            0 <= k && k + TICKS_PER_CYCLE < n ==> replay(descriptors, active_lows, counter, n)[k
                + TICKS_PER_CYCLE] == #[trigger] replay(descriptors, active_lows, counter, n)[k],
    decreases n,
{
    let p = TICKS_PER_CYCLE as int;
    let r = replay(descriptors, active_lows, counter, n);
    if n > 0 {
        let next = (counter + 1) % p;
        lemma_replay(descriptors, active_lows, next, (n - 1) as nat);
        assert forall|k: int| 0 <= k < n implies #[trigger] r[k] == masked_outputs(
            descriptors,
            active_lows,
            (counter + k + 1) % p,
        ) by {
            if k > 0 {
                lemma_add_mod_noop_right(k, counter + 1, p);
                assert(r[k] == replay(descriptors, active_lows, next, (n - 1) as nat)[k - 1]);
            }
        }
        assert forall|k: int| 0 <= k && k + p < n implies r[k + p] == #[trigger] r[k] by {
            lemma_add_mod_noop_right(counter + k + 1, p, p);
            vstd::arithmetic::div_mod::lemma_mod_self_0(p);
            assert(counter + k + p + 1 == (counter + k + 1) + p);
        }
    }
}

/// The counter after `n` ticks from counter `counter`, one tick at a time as
/// `call_at_100_hz` advances it.
pub open spec fn after_ticks(counter: int, n: nat) -> int
    decreases n,
{
    if n == 0 {
        counter
    } else {
        (after_ticks(counter, (n - 1) as nat) + 1) % (TICKS_PER_CYCLE as int)
    }
}

/// Ticking is periodic: `n` ticks move the counter by `n` modulo the period,
/// so a full period of ticks brings it back, and with it the three cycle
/// values and the outputs of unchanged descriptors.
pub proof fn lemma_after_ticks(counter: int, n: nat)
    requires
        0 <= counter < TICKS_PER_CYCLE,
    ensures
        after_ticks(counter, n) == (counter + n) % (TICKS_PER_CYCLE as int),
        after_ticks(counter, n + TICKS_PER_CYCLE as nat) == after_ticks(counter, n),
        forall|descriptors: Seq<OutputStateDescriptor>, active_lows: Seq<bool>|
            #[trigger] masked_outputs(
                descriptors,
                active_lows,
                after_ticks(counter, n + TICKS_PER_CYCLE as nat),
            ) == masked_outputs(descriptors, active_lows, after_ticks(counter, n)),
{
    let p = TICKS_PER_CYCLE as int;
    lemma_after_ticks_mod(counter, n);
    lemma_after_ticks_mod(counter, n + TICKS_PER_CYCLE as nat);
    lemma_add_mod_noop_right(counter + n, p, p);
    vstd::arithmetic::div_mod::lemma_mod_self_0(p);
}

proof fn lemma_after_ticks_mod(counter: int, n: nat)
    requires
        0 <= counter < TICKS_PER_CYCLE,
    ensures
        after_ticks(counter, n) == (counter + n) % (TICKS_PER_CYCLE as int),
    decreases n,
{
    let p = TICKS_PER_CYCLE as int;
    if n == 0 {
        vstd::arithmetic::div_mod::lemma_small_mod(counter as nat, p as nat);
    } else {
        lemma_after_ticks_mod(counter, (n - 1) as nat);
        lemma_add_mod_noop(counter + n - 1, 1, p);
        assert((1int) % p == 1);
    }
}

pub struct TimedOutputMasker {
    output_descriptors: [OutputStateDescriptor; PIN_COUNT],
    active_lows: [bool; PIN_COUNT],
    tick_count: u8,
    slow_cycle_value: bool,
    fast_cycle_value: bool,
    pip_timer_value: bool,
}

impl TimedOutputMasker {
    pub closed spec fn descriptors(&self) -> Seq<OutputStateDescriptor> {
        self.output_descriptors@
    }

    pub closed spec fn active_lows(&self) -> Seq<bool> {
        self.active_lows@
    }

    /// The current value of the wrapping tick counter.
    pub closed spec fn counter(&self) -> int {
        self.tick_count as int
    }

    /// One descriptor and one polarity per pin, and the counter within a
    /// period.
    pub open spec fn wf(&self) -> bool {
        &&& self.descriptors().len() == PIN_COUNT
        &&& self.active_lows().len() == PIN_COUNT
        &&& 0 <= self.counter() < TICKS_PER_CYCLE
    }

    /// Every masker has one descriptor and one polarity per pin.
    pub proof fn lemma_lengths(&self)
        ensures
            self.descriptors().len() == PIN_COUNT,
            self.active_lows().len() == PIN_COUNT,
            0 <= self.counter(),
    {
    }

    /// A masker with every lamp off; the first tick brings the counter to 0.
    pub fn new(active_lows: [bool; PIN_COUNT]) -> (r: Self)
        ensures
            r.wf(),
            r.descriptors() == Seq::new(PIN_COUNT as nat, |i: int| OutputStateDescriptor::off()),
            r.active_lows() == active_lows@,
            r.counter() == counter_at(0),
    {
        let r = TimedOutputMasker {
            output_descriptors: [OutputStateDescriptor::new();PIN_COUNT],
            active_lows: active_lows,
            tick_count: TICKS_PER_CYCLE - 1,
            slow_cycle_value: false,
            fast_cycle_value: false,
            pip_timer_value: false,
        };
        assert(r.descriptors() =~= Seq::new(PIN_COUNT as nat, |i: int| OutputStateDescriptor::off()));
        r
    }

    /// One tick: advances the counter, then returns the physical level of
    /// every pin.
    pub fn call_at_100_hz(&mut self) -> (r: [bool; PIN_COUNT])
        requires
            old(self).wf(),
        ensures
            final(self).wf(),
            final(self).counter() == (old(self).counter() + 1) % (TICKS_PER_CYCLE as int),
            final(self).descriptors() == old(self).descriptors(),
            final(self).active_lows() == old(self).active_lows(),
            r@ == masked_outputs(
                old(self).descriptors(),
                old(self).active_lows(),
                final(self).counter(),
            ),
    {
        self.advance_timers();
        self.mask_output_pins()
    }

    fn advance_timers(&mut self)
        requires
            old(self).wf(),
        ensures
            final(self).wf(),
            final(self).tick_count == (old(self).tick_count + 1) % (TICKS_PER_CYCLE as int),
            final(self).output_descriptors == old(self).output_descriptors,
            final(self).active_lows == old(self).active_lows,
            final(self).slow_cycle_value == slow_cycle(final(self).tick_count as int),
            final(self).fast_cycle_value == fast_cycle(final(self).tick_count as int),
            final(self).pip_timer_value == pip_cycle(final(self).tick_count as int),
    {
        self.tick_count = (self.tick_count + 1) % TICKS_PER_CYCLE;
        self.slow_cycle_value = self.tick_count < TICKS_PER_CYCLE / 2;
        self.fast_cycle_value = (self.tick_count / (TICKS_PER_CYCLE / 10)) % 2 == 1;
        self.pip_timer_value = self.tick_count == 0;
    }

    fn mask_output_pins(&self) -> (r: [bool; PIN_COUNT])
        ensures
            r@ == Seq::new(
                PIN_COUNT as nat,
                |i: int|
                    masked_level(
                        self.output_descriptors@[i],
                        self.active_lows@[i],
                        self.slow_cycle_value,
                        self.fast_cycle_value,
                        self.pip_timer_value,
                    ),
            ),
    {
        let mut outputs = [false;PIN_COUNT];
        let mut i: usize = 0;
        while i < PIN_COUNT
            invariant
                i <= PIN_COUNT,
                forall|j: int|
                    0 <= j < i ==> outputs@[j] == masked_level(
                        self.output_descriptors@[j],
                        self.active_lows@[j],
                        self.slow_cycle_value,
                        self.fast_cycle_value,
                        self.pip_timer_value,
                    ),
            decreases PIN_COUNT - i,
        {
            let output_descriptor: &OutputStateDescriptor = &self.output_descriptors[i];
            let mut level: bool = output_descriptor.on;
            if output_descriptor.subject_to_slow_cycle {
                level = level && self.slow_cycle_value;
            }
            if output_descriptor.subject_to_fast_cycle {
                level = level && self.fast_cycle_value;
            }
            if output_descriptor.subject_to_pip_timer {
                level = level && self.pip_timer_value;
            }
            if self.active_lows[i] {
                level = !level;
            }
            outputs[i] = level;
            i = i + 1;
        }
        assert(outputs@ =~= Seq::new(
            PIN_COUNT as nat,
            |i: int|
                masked_level(
                    self.output_descriptors@[i],
                    self.active_lows@[i],
                    self.slow_cycle_value,
                    self.fast_cycle_value,
                    self.pip_timer_value,
                ),
        ));
        outputs
    }

    /// Sets three pins steadily on or off, subject to no cycle.
    pub fn set_on_off3(
        &mut self,
        pin0: Pins,
        on0: bool,
        pin1: Pins,
        on1: bool,
        pin2: Pins,
        on2: bool,
    )
        ensures
            final(self).wf() == old(self).wf(),
            final(self).counter() == old(self).counter(),
            final(self).active_lows() == old(self).active_lows(),
            final(self).descriptors() == old(self).descriptors().update(
                pin0.index(),
                OutputStateDescriptor::steady(on0),
            ).update(pin1.index(), OutputStateDescriptor::steady(on1)).update(
                pin2.index(),
                OutputStateDescriptor::steady(on2),
            ),
    {
        self.set_pin(pin0, on0, false, false, false);
        self.set_pin(pin1, on1, false, false, false);
        self.set_pin(pin2, on2, false, false, false);
    }

    /// Sets two pins steadily on or off, subject to no cycle.
    pub fn set_on_off2(&mut self, pin0: Pins, on0: bool, pin1: Pins, on1: bool)
        ensures
            final(self).wf() == old(self).wf(),
            final(self).counter() == old(self).counter(),
            final(self).active_lows() == old(self).active_lows(),
            final(self).descriptors() == old(self).descriptors().update(
                pin0.index(),
                OutputStateDescriptor::steady(on0),
            ).update(pin1.index(), OutputStateDescriptor::steady(on1)),
    {
        self.set_pin(pin0, on0, false, false, false);
        self.set_pin(pin1, on1, false, false, false);
    }

    /// Sets one pin steadily on or off, subject to no cycle.
    pub fn set_on_off(&mut self, pin: Pins, on: bool)
        ensures
            final(self).wf() == old(self).wf(),
            final(self).counter() == old(self).counter(),
            final(self).active_lows() == old(self).active_lows(),
            final(self).descriptors() == old(self).descriptors().update(
                pin.index(),
                OutputStateDescriptor::steady(on),
            ),
    {
        self.set_pin(pin, on, false, false, false);
    }

    /// Replaces the descriptor of one pin.
    pub fn set_pin(
        &mut self,
        pin: Pins,
        on: bool,
        subject_to_slow_cycle: bool,
        subject_to_fast_cycle: bool,
        subject_to_pip_timer: bool,
    )
        ensures
            final(self).wf() == old(self).wf(),
            final(self).counter() == old(self).counter(),
            final(self).active_lows() == old(self).active_lows(),
            final(self).descriptors() == old(self).descriptors().update(
                pin.index(),
                OutputStateDescriptor {
                    on,
                    subject_to_slow_cycle,
                    subject_to_fast_cycle,
                    subject_to_pip_timer,
                },
            ),
    {
        self.output_descriptors[pin.ordinal()] = OutputStateDescriptor {
            on: on,
            subject_to_slow_cycle: subject_to_slow_cycle,
            subject_to_fast_cycle: subject_to_fast_cycle,
            subject_to_pip_timer: subject_to_pip_timer,
        };
    }
}

} // verus!
