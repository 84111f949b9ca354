use julia::fixed::SCALE;
use julia::{advance_tick, tier_for, CommandsArgs, Complex, JuliaArgs, Point};

#[test]
fn point_new_keeps_coordinates() {
    let p = Point::new(3, 5);
    assert_eq!(p.x, 3);
    assert_eq!(p.y, 5);
}

#[test]
fn commands_args_lifecycle() {
    let mut s = CommandsArgs::new();
    assert!(s.change);
    assert_eq!(s.time, 0);
    assert_eq!(s.n0_id, 0);

    // A changed frame resets the idle counter.
    s.update_time();
    assert_eq!(s.time, 0);

    // Quiet frames increment it.
    s.nothing();
    assert!(!s.change);
    s.update_time();
    s.update_time();
    assert_eq!(s.time, 2);

    // A new action resets it again.
    s.action();
    assert!(s.change);
    s.update_time();
    assert_eq!(s.time, 0);
}

#[test]
fn tier_table_boundaries() {
    assert_eq!(tier_for(0), (151, 4, true));
    assert_eq!(tier_for(2), (151, 4, true));
    assert_eq!(tier_for(3), (201, 3, true));
    assert_eq!(tier_for(8), (201, 3, true));
    assert_eq!(tier_for(9), (201, 2, false));
    assert_eq!(tier_for(17), (201, 2, false));
    assert_eq!(tier_for(18), (251, 1, false));
    assert_eq!(tier_for(1000), (251, 1, false));
}

fn start_params() -> JuliaArgs {
    JuliaArgs::new(
        700,
        700,
        Complex::new(0, 0),
        Complex::new(-3 * SCALE / 4, SCALE / 10),
        2 * SCALE,
        2 * SCALE,
        151,
        251,
        4,
        true,
    )
    .unwrap()
}

#[test]
fn idle_counter_resets_on_input_and_climbs_otherwise() {
    let mut params = start_params();
    let mut state = CommandsArgs::new();

    assert!(advance_tick(&mut params, &mut state, true));
    assert_eq!(state.time, 0);

    let mut last = state.time;
    for _ in 0..5 {
        advance_tick(&mut params, &mut state, false);
        assert_eq!(state.time, last + 1);
        last = state.time;
    }

    advance_tick(&mut params, &mut state, true);
    assert_eq!(state.time, 0);
}

#[test]
fn tier_changes_trigger_renders_without_input() {
    let mut params = start_params();
    let mut state = CommandsArgs::new();

    // Input frame: lowest tier.
    assert!(advance_tick(&mut params, &mut state, true));
    assert_eq!((params.n0, params.step, params.lower), (151, 4, true));

    // Quiet frames 1 and 2 stay in the lowest tier: no render owed.
    assert!(!advance_tick(&mut params, &mut state, false));
    assert!(!advance_tick(&mut params, &mut state, false));

    // Quiet frame 3 crosses into the second tier.
    assert!(advance_tick(&mut params, &mut state, false));
    assert_eq!((params.n0, params.step, params.lower), (201, 3, true));
    assert_eq!(state.change, true);

    // Tier is stable until frame 9.
    for _ in 4..9 {
        assert!(!advance_tick(&mut params, &mut state, false));
    }
    assert!(advance_tick(&mut params, &mut state, false));
    assert_eq!((params.n0, params.step, params.lower), (201, 2, false));

    // Tier is stable until frame 18.
    for _ in 10..18 {
        assert!(!advance_tick(&mut params, &mut state, false));
    }
    assert!(advance_tick(&mut params, &mut state, false));
    assert_eq!((params.n0, params.step, params.lower), (251, 1, false));

    // Highest tier is terminal while quiet.
    assert!(!advance_tick(&mut params, &mut state, false));

    // Input drops straight back to the lowest tier.
    assert!(advance_tick(&mut params, &mut state, true));
    assert_eq!((params.n0, params.step, params.lower), (151, 4, true));
}

#[test]
fn advance_tick_keeps_view_fields() {
    let mut params = start_params();
    let mut state = CommandsArgs::new();
    let before = params;
    advance_tick(&mut params, &mut state, false);
    assert_eq!(params.width, before.width);
    assert_eq!(params.height, before.height);
    assert_eq!(params.z0_center, before.z0_center);
    assert_eq!(params.c, before.c);
    assert_eq!(params.x_span, before.x_span);
    assert_eq!(params.y_span, before.y_span);
    assert_eq!(params.n0_max, before.n0_max);
}
