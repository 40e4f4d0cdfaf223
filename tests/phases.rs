use traffic_lights::trafficlight::{needs_permit, PermitAction, Phase, TrafficLight};

fn advance(light: &mut TrafficLight, maintenance_mode: bool) -> PermitAction {
    let expected = light.permit_action(maintenance_mode);
    let action = light.go_to_next_phase(maintenance_mode);
    assert_eq!(action, expected);
    action
}

#[test]
fn new_light_stops() {
    let light = TrafficLight::new();
    assert_eq!(light.phase(), Phase::Stop);
    assert!(light.red());
    assert!(!light.amber());
    assert!(!light.green());
}

#[test]
fn free_run_cycle_and_lamps() {
    let mut light = TrafficLight::new();
    let expected = [
        (Phase::Attention, true, true, false),
        (Phase::Go, false, false, true),
        (Phase::Yield, false, true, false),
        (Phase::ClearCrossing, true, false, false),
        (Phase::Stop, true, false, false),
        (Phase::Attention, true, true, false),
    ];
    for (phase, red, amber, green) in expected {
        advance(&mut light, false);
        assert_eq!(light.phase(), phase);
        assert_eq!((light.red(), light.amber(), light.green()), (red, amber, green));
    }
}

#[test]
fn maintenance_mode_alternates_flash() {
    let mut light = TrafficLight::new();
    advance(&mut light, true);
    assert_eq!(light.phase(), Phase::FlashOn);
    assert!(light.amber() && !light.red() && !light.green());
    advance(&mut light, true);
    assert_eq!(light.phase(), Phase::FlashOff);
    assert!(!light.amber() && !light.red() && !light.green());
    advance(&mut light, true);
    assert_eq!(light.phase(), Phase::FlashOn);
    advance(&mut light, false);
    assert_eq!(light.phase(), Phase::ClearCrossing);
    advance(&mut light, false);
    assert_eq!(light.phase(), Phase::Stop);
}

#[test]
fn needs_permit_by_phase() {
    for phase in [Phase::Attention, Phase::Go, Phase::Yield, Phase::ClearCrossing] {
        assert!(needs_permit(&phase));
    }
    for phase in [Phase::Stop, Phase::FlashOn, Phase::FlashOff] {
        assert!(!needs_permit(&phase));
    }
}

#[test]
fn permit_held_from_attention_through_clear_crossing() {
    let mut light = TrafficLight::new();
    let mut dwell_millis: u64 = 0;
    assert_eq!(advance(&mut light, false), PermitAction::Acquire);
    assert_eq!(light.phase(), Phase::Attention);
    dwell_millis += light.phase_time_millis();
    for phase in [Phase::Go, Phase::Yield, Phase::ClearCrossing] {
        assert_eq!(advance(&mut light, false), PermitAction::Keep);
        assert_eq!(light.phase(), phase);
        dwell_millis += light.phase_time_millis();
    }
    assert_eq!(advance(&mut light, false), PermitAction::Release);
    assert_eq!(light.phase(), Phase::Stop);
    assert_eq!(dwell_millis, 10_500);
}

#[test]
fn dwell_times() {
    let mut light = TrafficLight::new();
    assert_eq!((light.phase_time_millis(), light.phase_time_seconds()), (10_000, 10));
    let expected = [(1_500, 1), (4_000, 4), (3_000, 3), (2_000, 2)];
    for (millis, seconds) in expected {
        advance(&mut light, false);
        assert_eq!(light.phase_time_millis(), millis);
        assert_eq!(light.phase_time_seconds(), seconds);
    }
    advance(&mut light, true);
    assert_eq!(light.phase(), Phase::FlashOn);
    assert_eq!((light.phase_time_millis(), light.phase_time_seconds()), (1_000, 1));
}

#[test]
fn acquires_minus_releases_stays_zero_or_one() {
    let modes = [
        false, false, true, true, true, false, true, true, false, false, false, false, true, false,
        false, true, true, false, false, false, true, false, false, false, false, false, true,
    ];
    let mut light = TrafficLight::new();
    let mut balance: i64 = 0;
    for mode in modes {
        match advance(&mut light, mode) {
            PermitAction::Acquire => balance += 1,
            PermitAction::Release => balance -= 1,
            PermitAction::Keep => {}
        }
        assert!(balance == 0 || balance == 1);
        assert_eq!(balance == 1, needs_permit(&light.phase()));
    }
}

#[test]
fn switch_to_flash_mid_cycle_finishes_crossing_first() {
    let mut light = TrafficLight::new();
    advance(&mut light, false);
    advance(&mut light, false);
    assert_eq!(light.phase(), Phase::Go);
    // Maintenance mode from here on: the crossing is completed, then flash.
    assert_eq!(advance(&mut light, true), PermitAction::Keep);
    assert_eq!(light.phase(), Phase::Yield);
    assert_eq!(advance(&mut light, true), PermitAction::Keep);
    assert_eq!(light.phase(), Phase::ClearCrossing);
    assert_eq!(advance(&mut light, true), PermitAction::Release);
    assert_eq!(light.phase(), Phase::FlashOn);
    assert_eq!(advance(&mut light, true), PermitAction::Keep);
    assert_eq!(light.phase(), Phase::FlashOff);
}

#[test]
fn next_phase_does_not_change_phase() {
    let light = TrafficLight::new();
    assert_eq!(light.next_phase(false), Phase::Attention);
    assert_eq!(light.next_phase(true), Phase::FlashOn);
    assert_eq!(light.phase(), Phase::Stop);
}

#[test]
fn lights_sharing_one_permit_exclude_each_other() {
    // One permit shared by two lights: a light may enter Attention only
    // while the permit is free.
    let mut lights = [TrafficLight::new(), TrafficLight::new()];
    let mut available: i64 = 1;
    let mut greens_seen = [0u32; 2];
    for round in 0..40 {
        for i in 0..2 {
            let maintenance_mode = round % 13 == 12;
            let action = lights[i].permit_action(maintenance_mode);
            if action == PermitAction::Acquire && available == 0 {
                continue;
            }
            match lights[i].go_to_next_phase(maintenance_mode) {
                PermitAction::Acquire => available -= 1,
                PermitAction::Release => available += 1,
                PermitAction::Keep => {}
            }
            let holding = lights.iter().filter(|l| needs_permit(&l.phase())).count() as i64;
            assert_eq!(available + holding, 1);
            assert!(!(lights[0].green() && lights[1].green()));
            for j in 0..2 {
                if lights[j].green() {
                    greens_seen[j] += 1;
                }
            }
        }
    }
    assert!(greens_seen[0] > 0 && greens_seen[1] > 0);
}
