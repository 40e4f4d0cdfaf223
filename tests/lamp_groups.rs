use traffic_lights::approach::{show_scene, Scene};
use traffic_lights::lamps::{PedestrianCallState, PedestrianLights, TrafficLights};
use traffic_lights::timed_output_masker::{Pins, TimedOutputMasker, PIN_COUNT};

fn masker() -> TimedOutputMasker {
    TimedOutputMasker::new([false; PIN_COUNT])
}

fn pedestrian_a() -> PedestrianLights {
    PedestrianLights::new(
        Pins::APedestrianRed,
        Pins::APedestrianGreen,
        Pins::ABeeper,
        Pins::APromise,
    )
}

fn traffic_a() -> TrafficLights {
    TrafficLights::new(Pins::ARed, Pins::AAmber, Pins::AGreen)
}

fn state(active: bool, promise_made: bool, old_promise: bool) -> PedestrianCallState {
    PedestrianCallState { active, promise_made, old_promise }
}

/// Levels of one pin over a full cycle of the counter.
fn levels(lights: &mut TimedOutputMasker, pin: Pins) -> Vec<bool> {
    (0..100).map(|_| lights.call_at_100_hz()[pin.ordinal()]).collect()
}

fn steady(lights: &mut TimedOutputMasker, pin: Pins) -> Option<bool> {
    let l = levels(lights, pin);
    if l.iter().all(|x| *x) {
        Some(true)
    } else if l.iter().all(|x| !*x) {
        Some(false)
    } else {
        None
    }
}

#[test]
fn traffic_groups_show_their_phases() {
    let mut lights = masker();
    let traffic = traffic_a();
    let check = |lights: &mut TimedOutputMasker, r: bool, a: bool, g: bool| {
        let out = lights.call_at_100_hz();
        assert_eq!(
            (out[Pins::ARed.ordinal()], out[Pins::AAmber.ordinal()], out[Pins::AGreen.ordinal()]),
            (r, a, g)
        );
    };
    traffic.go_attention(&mut lights);
    check(&mut lights, true, true, false);
    traffic.go_go(&mut lights);
    check(&mut lights, false, false, true);
    traffic.go_yield(&mut lights);
    check(&mut lights, false, true, false);
    traffic.go_clear(&mut lights);
    check(&mut lights, true, false, false);
    traffic.go_yield_flash(&mut lights);
    check(&mut lights, false, true, false);
}

#[test]
fn traffic_flash_blinks_amber_on_slow_cycle() {
    let mut lights = masker();
    let traffic = traffic_a();
    traffic.go_flash(&mut lights);
    let amber = levels(&mut lights, Pins::AAmber);
    for (tick, level) in amber.iter().enumerate() {
        assert_eq!(*level, tick < 50);
    }
    assert_eq!(steady(&mut lights, Pins::ARed), Some(false));
    assert_eq!(steady(&mut lights, Pins::AGreen), Some(false));
}

#[test]
fn call_during_go_gives_walk_at_next_go_and_through_yield() {
    let mut lights = masker();
    let mut ped = pedestrian_a();
    ped.go_attention(&mut lights);
    assert_eq!(ped.call_state(), state(true, false, false));
    ped.go_go(&mut lights);
    assert_eq!(steady(&mut lights, Pins::APedestrianGreen), Some(false));

    ped.make_promise(&mut lights);
    assert_eq!(ped.call_state(), state(true, true, false));
    assert_eq!(steady(&mut lights, Pins::APromise), Some(true));

    // The rest of this cycle gives no walk.
    ped.go_yield(&mut lights);
    assert_eq!(steady(&mut lights, Pins::APedestrianGreen), Some(false));
    ped.go_clear(&mut lights);
    ped.go_attention(&mut lights);

    // Next Go: walk and beeper, the call consumed and carried over.
    ped.go_go(&mut lights);
    assert_eq!(ped.call_state(), state(true, false, true));
    assert_eq!(steady(&mut lights, Pins::APedestrianGreen), Some(true));
    assert_eq!(steady(&mut lights, Pins::APedestrianRed), Some(false));
    assert_eq!(steady(&mut lights, Pins::APromise), Some(false));
    let beeper = levels(&mut lights, Pins::ABeeper);
    for (tick, level) in beeper.iter().enumerate() {
        assert_eq!(*level, (tick / 10) % 2 == 1);
    }

    // Yield: the walk goes on, blinking.
    ped.go_yield(&mut lights);
    assert_eq!(ped.call_state(), state(true, false, true));
    assert_eq!(steady(&mut lights, Pins::APedestrianRed), Some(false));
    let green = levels(&mut lights, Pins::APedestrianGreen);
    for (tick, level) in green.iter().enumerate() {
        assert_eq!(*level, tick < 50);
    }

    // Clear: walk ends.
    ped.go_clear(&mut lights);
    assert_eq!(steady(&mut lights, Pins::APedestrianGreen), Some(false));
    assert_eq!(steady(&mut lights, Pins::APedestrianRed), Some(true));
    assert_eq!(steady(&mut lights, Pins::ABeeper), Some(false));
}

#[test]
fn repeated_calls_act_as_one() {
    let mut once_lights = masker();
    let mut once = pedestrian_a();
    once.go_attention(&mut once_lights);
    once.make_promise(&mut once_lights);

    let mut many_lights = masker();
    let mut many = pedestrian_a();
    many.go_attention(&mut many_lights);
    for _ in 0..5 {
        many.make_promise(&mut many_lights);
    }
    assert_eq!(once.call_state(), many.call_state());
    for _ in 0..200 {
        assert_eq!(once_lights.call_at_100_hz(), many_lights.call_at_100_hz());
    }
    once.go_go(&mut once_lights);
    many.go_go(&mut many_lights);
    assert_eq!(once.call_state(), many.call_state());
    assert_eq!(once_lights.call_at_100_hz(), many_lights.call_at_100_hz());
}

#[test]
fn call_while_inactive_is_ignored() {
    let mut lights = masker();
    let mut ped = pedestrian_a();
    ped.make_promise(&mut lights);
    assert_eq!(ped.call_state(), state(false, false, false));
    assert_eq!(steady(&mut lights, Pins::APromise), Some(false));
    ped.go_attention(&mut lights);
    ped.go_go(&mut lights);
    assert_eq!(steady(&mut lights, Pins::APedestrianGreen), Some(false));
    assert_eq!(ped.call_state(), state(true, false, false));
}

#[test]
fn call_pips_the_beeper() {
    let mut lights = masker();
    let mut ped = pedestrian_a();
    ped.go_attention(&mut lights);
    ped.make_promise(&mut lights);
    let beeper = levels(&mut lights, Pins::ABeeper);
    let on: Vec<usize> = (0..100).filter(|t| beeper[*t]).collect();
    assert_eq!(on.len(), 1);
}

#[test]
fn flash_darkens_head_and_clears_latch() {
    let mut lights = masker();
    let mut ped = pedestrian_a();
    ped.go_attention(&mut lights);
    ped.make_promise(&mut lights);
    ped.go_flash(&mut lights);
    assert_eq!(ped.call_state(), state(false, false, false));
    for pin in [Pins::APedestrianRed, Pins::APedestrianGreen, Pins::ABeeper, Pins::APromise] {
        assert_eq!(steady(&mut lights, pin), Some(false));
    }
    ped.go_attention(&mut lights);
    ped.make_promise(&mut lights);
    ped.go_yield_flash(&mut lights);
    assert_eq!(ped.call_state(), state(false, false, false));
}

#[test]
fn priority_attention_holds_pedestrians() {
    let mut lights = masker();
    let traffic = traffic_a();
    let mut ped = pedestrian_a();
    show_scene(Scene::Attention, &traffic, &mut ped, &mut lights);
    show_scene(Scene::PriorityAttention, &traffic, &mut ped, &mut lights);
    let out = lights.call_at_100_hz();
    assert!(out[Pins::ARed.ordinal()] && out[Pins::AAmber.ordinal()]);
    assert!(out[Pins::APedestrianRed.ordinal()]);
    assert!(!out[Pins::APedestrianGreen.ordinal()]);
    show_scene(Scene::PriorityGo, &traffic, &mut ped, &mut lights);
    let out = lights.call_at_100_hz();
    assert!(out[Pins::AGreen.ordinal()] && !out[Pins::ARed.ordinal()]);
    assert!(out[Pins::APedestrianRed.ordinal()]);
}

#[test]
fn normal_scenes_drive_both_heads() {
    let mut lights = masker();
    let traffic = traffic_a();
    let mut ped = pedestrian_a();
    show_scene(Scene::Attention, &traffic, &mut ped, &mut lights);
    assert!(ped.call_state().active);
    ped.make_promise(&mut lights);
    show_scene(Scene::Go, &traffic, &mut ped, &mut lights);
    let out = lights.call_at_100_hz();
    assert!(out[Pins::AGreen.ordinal()]);
    assert!(out[Pins::APedestrianGreen.ordinal()]);
    show_scene(Scene::Flash, &traffic, &mut ped, &mut lights);
    assert!(!ped.call_state().active);
    let out = lights.call_at_100_hz();
    assert!(!out[Pins::AGreen.ordinal()] && !out[Pins::APedestrianGreen.ordinal()]);
}
