use rgbcal::rgb::{Action, Rgb};
use rgbcal::{CHANNELS, LEVELS};

#[test]
fn new_engine_is_dark() {
    let rgb = Rgb::new();
    assert_eq!(rgb.levels(), [0, 0, 0]);
}

#[test]
fn frame_tick_time_exact_values() {
    assert_eq!(Rgb::frame_tick_time(50), 416);
    assert_eq!(Rgb::frame_tick_time(10), 2083);
    assert_eq!(Rgb::frame_tick_time(160), 130);
    assert_eq!(Rgb::frame_tick_time(1), 20833);
}

#[test]
fn frame_tick_time_at_large_rates() {
    assert_eq!(Rgb::frame_tick_time(20833), 1);
    assert_eq!(Rgb::frame_tick_time(20834), 0);
    assert_eq!(Rgb::frame_tick_time(u64::MAX / 48 + 1), 0);
    assert_eq!(Rgb::frame_tick_time(u64::MAX), 0);
}

#[test]
fn tick_time_scales_the_tick() {
    assert_eq!(Rgb::tick_time(10, 50), 4160);
    assert_eq!(Rgb::tick_time(6, 50), 2496);
    assert_eq!(Rgb::tick_time(0, 50), 0);
    assert_eq!(Rgb::tick_time(16, 50), 6656);
    assert_eq!(Rgb::tick_time(16, 1), 333_328);
}

#[test]
fn cycle_time_does_not_depend_on_levels() {
    for rate in [1u64, 10, 50, 60, 160, 20833, 20834] {
        let tick = Rgb::frame_tick_time(rate);
        let whole = (CHANNELS as u64) * (LEVELS as u64) * tick;
        for r in 0..=LEVELS as u64 {
            for g in [0u64, 1, 7, 15, 16] {
                for b in [0u64, 3, 10, 16] {
                    let mut sum = 0;
                    for level in [r, g, b] {
                        sum += Rgb::tick_time(level, rate);
                        sum += Rgb::tick_time(LEVELS as u64 - level, rate);
                    }
                    assert_eq!(sum, whole);
                }
            }
        }
        assert!(whole <= 1_000_000 / rate);
        assert!(whole + 48 > 1_000_000 / rate);
    }
}

#[test]
fn cycle_time_at_fifty_hertz() {
    // a tick of 416 microseconds, 48 of them in a cycle
    let mut rgb = Rgb::new();
    let actions = rgb.run([15, 3, 10]);
    let mut sum = 0;
    for action in actions {
        if let Action::Hold(ticks) = action {
            sum += Rgb::tick_time(ticks, 50);
        }
    }
    assert_eq!(sum, 19_968);
}

#[test]
fn cycle_time_is_exact_where_the_tick_divides() {
    // 1_000_000 / 20833 = 48, one microsecond per tick
    let mut rgb = Rgb::new();
    let actions = rgb.run([0, 16, 9]);
    let mut sum = 0;
    for action in actions {
        if let Action::Hold(ticks) = action {
            sum += Rgb::tick_time(ticks, 20833);
        }
    }
    assert_eq!(sum, 1_000_000 / 20833);
}

#[test]
fn step_at_level_zero_never_drives_high() {
    let mut rgb = Rgb::new();
    rgb.run([0, 5, 5]);
    let actions = rgb.step(0);
    assert_eq!(actions, vec![Action::Hold(16)]);
    assert!(!actions.iter().any(|a| matches!(a, Action::High(_))));
}

#[test]
fn step_at_top_level_has_no_empty_hold() {
    let mut rgb = Rgb::new();
    rgb.run([5, 16, 5]);
    let actions = rgb.step(1);
    assert_eq!(actions, vec![Action::High(1), Action::Hold(16), Action::Low(1)]);
}

#[test]
fn step_between_the_ends() {
    let mut rgb = Rgb::new();
    rgb.run([15, 1, 10]);
    assert_eq!(
        rgb.step(0),
        vec![Action::High(0), Action::Hold(15), Action::Low(0), Action::Hold(1)]
    );
    assert_eq!(
        rgb.step(1),
        vec![Action::High(1), Action::Hold(1), Action::Low(1), Action::Hold(15)]
    );
    assert_eq!(
        rgb.step(2),
        vec![Action::High(2), Action::Hold(10), Action::Low(2), Action::Hold(6)]
    );
}

#[test]
fn run_holds_the_vector_and_plans_the_channels_in_order() {
    let mut rgb = Rgb::new();
    let actions = rgb.run([0, 16, 10]);
    assert_eq!(rgb.levels(), [0, 16, 10]);
    assert_eq!(
        actions,
        vec![
            Action::Hold(16),
            Action::High(1),
            Action::Hold(16),
            Action::Low(1),
            Action::High(2),
            Action::Hold(10),
            Action::Low(2),
            Action::Hold(6),
        ]
    );
}

#[test]
fn run_of_a_dark_vector_only_holds() {
    let mut rgb = Rgb::new();
    let actions = rgb.run([0, 0, 0]);
    assert_eq!(actions, vec![Action::Hold(16), Action::Hold(16), Action::Hold(16)]);
}

#[test]
fn run_is_the_three_steps() {
    let mut rgb = Rgb::new();
    let actions = rgb.run([4, 8, 12]);
    let mut steps = Vec::new();
    for led in 0..CHANNELS {
        steps.extend(rgb.step(led));
    }
    assert_eq!(actions, steps);
}
