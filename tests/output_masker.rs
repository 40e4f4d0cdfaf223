use traffic_lights::timed_output_masker::{Pins, TimedOutputMasker, PIN_COUNT};

fn no_active_lows() -> [bool; PIN_COUNT] {
    [false; PIN_COUNT]
}

fn level_over_ticks(masker: &mut TimedOutputMasker, pin: Pins, ticks: usize) -> Vec<bool> {
    let mut levels = Vec::new();
    for _ in 0..ticks {
        levels.push(masker.call_at_100_hz()[pin.ordinal()]);
    }
    levels
}

#[test]
fn new_masker_outputs_everything_off() {
    let mut masker = TimedOutputMasker::new(no_active_lows());
    let outputs = masker.call_at_100_hz();
    assert_eq!(outputs, [false; PIN_COUNT]);
}

#[test]
fn steady_pin_stays_on_every_tick() {
    let mut masker = TimedOutputMasker::new(no_active_lows());
    masker.set_on_off(Pins::ARed, true);
    let levels = level_over_ticks(&mut masker, Pins::ARed, 250);
    assert!(levels.iter().all(|l| *l));
}

#[test]
fn slow_cycle_is_on_for_first_half_of_period() {
    let mut masker = TimedOutputMasker::new(no_active_lows());
    masker.set_pin(Pins::AAmber, true, true, false, false);
    let levels = level_over_ticks(&mut masker, Pins::AAmber, 100);
    for (tick, level) in levels.iter().enumerate() {
        assert_eq!(*level, tick < 50, "tick {}", tick);
    }
}

#[test]
fn slow_cycle_repeats_with_period() {
    let mut masker = TimedOutputMasker::new(no_active_lows());
    masker.set_pin(Pins::BAmber, true, true, false, false);
    let levels = level_over_ticks(&mut masker, Pins::BAmber, 350);
    for t in 0..350 {
        assert_eq!(levels[t], levels[t % 100], "tick {}", t);
    }
}

#[test]
fn fast_cycle_is_on_in_odd_tenths() {
    let mut masker = TimedOutputMasker::new(no_active_lows());
    masker.set_pin(Pins::ABeeper, true, false, true, false);
    let levels = level_over_ticks(&mut masker, Pins::ABeeper, 100);
    for (tick, level) in levels.iter().enumerate() {
        assert_eq!(*level, (tick / 10) % 2 == 1, "tick {}", tick);
    }
}

#[test]
fn pip_is_one_tick_per_period() {
    let mut masker = TimedOutputMasker::new(no_active_lows());
    masker.set_pin(Pins::Power, true, false, false, true);
    let levels = level_over_ticks(&mut masker, Pins::Power, 300);
    let on: Vec<usize> = (0..300).filter(|t| levels[*t]).collect();
    assert_eq!(on, vec![0, 100, 200]);
}

#[test]
fn cycles_combine_with_and() {
    let mut masker = TimedOutputMasker::new(no_active_lows());
    masker.set_pin(Pins::BBeeper, true, true, true, false);
    let levels = level_over_ticks(&mut masker, Pins::BBeeper, 100);
    for (tick, level) in levels.iter().enumerate() {
        assert_eq!(*level, tick < 50 && (tick / 10) % 2 == 1, "tick {}", tick);
    }
}

#[test]
fn off_pin_stays_off_whatever_its_cycles() {
    let mut masker = TimedOutputMasker::new(no_active_lows());
    masker.set_pin(Pins::AGreen, false, true, true, true);
    let levels = level_over_ticks(&mut masker, Pins::AGreen, 100);
    assert!(levels.iter().all(|l| !*l));
}

#[test]
fn active_low_is_applied_last() {
    let mut lows = no_active_lows();
    lows[Pins::APromise.ordinal()] = true;
    let mut masker = TimedOutputMasker::new(lows);
    let off = masker.call_at_100_hz();
    assert!(off[Pins::APromise.ordinal()]);
    masker.set_pin(Pins::APromise, true, false, false, true);
    let levels = level_over_ticks(&mut masker, Pins::APromise, 100);
    for (tick, level) in levels.iter().enumerate() {
        // Counter 1 onwards: the pip is off, so the inverted level is high.
        assert_eq!(*level, tick != 99, "tick {}", tick);
    }
}

#[test]
fn set_on_off_helpers_write_steady_levels() {
    let mut masker = TimedOutputMasker::new(no_active_lows());
    masker.set_pin(Pins::ARed, true, false, false, true);
    masker.set_on_off3(Pins::ARed, true, Pins::AAmber, false, Pins::AGreen, true);
    masker.set_on_off2(Pins::BRed, true, Pins::BGreen, false);
    masker.set_on_off(Pins::SwitchingMode, true);
    for _ in 0..3 {
        let out = masker.call_at_100_hz();
        assert!(out[Pins::ARed.ordinal()]);
        assert!(!out[Pins::AAmber.ordinal()]);
        assert!(out[Pins::AGreen.ordinal()]);
        assert!(out[Pins::BRed.ordinal()]);
        assert!(!out[Pins::BGreen.ordinal()]);
        assert!(out[Pins::SwitchingMode.ordinal()]);
    }
}

#[test]
fn later_write_to_same_pin_wins() {
    let mut masker = TimedOutputMasker::new(no_active_lows());
    masker.set_on_off2(Pins::ARed, true, Pins::ARed, false);
    assert!(!masker.call_at_100_hz()[Pins::ARed.ordinal()]);
}

fn sample_masker() -> TimedOutputMasker {
    let mut lows = no_active_lows();
    lows[Pins::Power.ordinal()] = true;
    let mut masker = TimedOutputMasker::new(lows);
    masker.set_pin(Pins::AAmber, true, true, false, false);
    masker.set_pin(Pins::ABeeper, true, false, true, false);
    masker.set_pin(Pins::Power, true, false, false, true);
    masker.set_on_off(Pins::BRed, true);
    masker
}

#[test]
fn replay_reproduces_identical_outputs() {
    let mut first = sample_masker();
    let mut second = sample_masker();
    let a: Vec<[bool; PIN_COUNT]> = (0..250).map(|_| first.call_at_100_hz()).collect();
    let b: Vec<[bool; PIN_COUNT]> = (0..250).map(|_| second.call_at_100_hz()).collect();
    assert_eq!(a, b);
    for k in 0..150 {
        assert_eq!(a[k], a[k + 100], "tick {}", k);
    }
}

#[test]
fn pin_ordinals_follow_declaration_order() {
    assert_eq!(Pins::ARed.ordinal(), 0);
    assert_eq!(Pins::ABeeper.ordinal(), 6);
    assert_eq!(Pins::BRed.ordinal(), 7);
    assert_eq!(Pins::BBeeper.ordinal(), 13);
    assert_eq!(Pins::SwitchingMode.ordinal(), PIN_COUNT - 1);
}
