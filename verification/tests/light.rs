use paso_websocket::light::{LightControl, BREATH_STEP_MS, OVERRIDE_DURATION_NANOS};

const MS: u64 = 1_000_000;

#[test]
fn breathing_goes_round_the_cycle() {
    let mut light = LightControl::new();
    let shown: Vec<Option<u8>> = (0..17).map(|i| light.tick(i * 500 * MS)).collect();
    let cycle = [0u8, 25, 50, 75, 100, 75, 50, 25];
    for (i, percent) in shown.iter().enumerate() {
        assert_eq!(*percent, Some(cycle[i % 8]));
    }
}

#[test]
fn a_command_holds_for_three_seconds() {
    assert_eq!(OVERRIDE_DURATION_NANOS, 3_000 * MS);
    assert_eq!(BREATH_STEP_MS, 500);
    let mut light = LightControl::new();
    assert!(!light.in_override(0));
    light.hold_after_write(true, 1_000 * MS);
    assert!(light.in_override(1_000 * MS));
    assert!(light.in_override(4_000 * MS - 1));
    assert!(!light.in_override(4_000 * MS));
}

#[test]
fn breathing_resumes_at_the_step_that_was_next() {
    let mut light = LightControl::new();
    assert_eq!(light.tick(0), Some(0));
    assert_eq!(light.tick(500 * MS), Some(25));
    light.hold_after_write(true, 600 * MS);
    for i in 2..8 {
        assert_eq!(light.tick(i * 500 * MS - 400 * MS), None);
    }
    assert_eq!(light.tick(3_600 * MS), Some(50));
    assert_eq!(light.tick(4_100 * MS), Some(75));
}

#[test]
fn a_new_command_holds_anew() {
    let mut light = LightControl::new();
    light.hold_after_write(true, 0);
    light.hold_after_write(true, 2_000 * MS);
    assert_eq!(light.tick(4_500 * MS), None);
    assert_eq!(light.tick(5_000 * MS), Some(0));
}

#[test]
fn a_command_holds_though_the_led_was_not_written() {
    let mut light = LightControl::new();
    assert_eq!(light.tick(0), Some(0));
    light.hold_after_write(false, 100 * MS);
    assert_eq!(light.tick(3_100 * MS - 1), None);
    assert_eq!(light.tick(3_100 * MS), Some(25));
}

#[test]
fn any_mix_of_ticks_and_commands_keeps_to_the_cycle() {
    let mut light = LightControl::new();
    let mut shown: Vec<u8> = Vec::new();
    for i in 0..100u64 {
        let now = i * 500 * MS;
        if i % 13 == 4 || i % 29 == 5 {
            light.hold_after_write(i % 2 == 0, now);
        }
        shown.extend(light.tick(now));
    }
    let cycle = [0u8, 25, 50, 75, 100, 75, 50, 25];
    assert!(shown.len() > 8 && shown.len() < 100);
    for (i, percent) in shown.iter().enumerate() {
        assert_eq!(*percent, cycle[i % 8]);
    }
}
