use projectile::{projectile_physics, sample_count, SimulationError, State, GRAVITY, SCALE};

const EPSILON: f64 = 1e-9;

fn approx_eq(a: f64, b: f64, epsilon: f64) -> bool {
    (a - b).abs() < epsilon
}

fn to_float(quantity: i64) -> f64 {
    quantity as f64 / SCALE as f64
}

fn launch() -> State {
    let mut initial_state = State::new();
    initial_state.vx = 500 * SCALE;
    initial_state.vy = 500 * SCALE;
    initial_state
}

// Function testing projectile_physics
#[test]
fn test_projectile_physics() {
    // Initialize a State struct
    let mut initial_state = State::new();
    initial_state.vx = 500 * SCALE;
    initial_state.vy = 500 * SCALE;

    // Initialize dt and t_max: 0.01 and 100.0
    let dt = SCALE / 100;
    let t_max = 100 * SCALE;

    // Call projectile_physics
    let state_vec = projectile_physics(initial_state, dt, t_max).unwrap();

    // Check that the last state has the correct time (to floating point precision)
    assert!(approx_eq(to_float(state_vec[9999].t), 99.99, EPSILON));
}

#[test]
fn launch_has_ten_thousand_samples() {
    let states = projectile_physics(launch(), 10_000, 100_000_000).unwrap();
    assert_eq!(states.len(), 10000);
    assert_eq!(states[9999].t, 99_990_000);
    assert_eq!(states[0], launch());
}

#[test]
fn launch_follows_the_rules_exactly() {
    let states = projectile_physics(launch(), 10_000, 100_000_000).unwrap();
    let s = &states[1];
    assert_eq!((s.t, s.x, s.y, s.vx, s.vy), (10_000, 5_000_000, 5_000_000, 500_000_000, 500_000_000));
    assert_eq!((s.speed, s.ay), (707_106_781, -9_810_000));
    let s = &states[2];
    assert_eq!((s.t, s.x, s.y, s.vx, s.vy), (20_000, 10_000_000, 10_000_000, 500_000_000, 499_901_900));
    assert_eq!((s.speed, s.ay), (707_037_417, -19_620_000));
    // the apex
    let s = &states[102];
    assert_eq!((s.t, s.x, s.y, s.vx, s.vy), (1_020_000, 510_000_000, 341_562_300, 500_000_000, -5_313_100));
    assert_eq!((s.speed, s.ay), (500_028_228, -1_000_620_000));
    assert!(states.iter().all(|state| state.y <= 341_562_300));
    // the last sample
    let s = &states[9999];
    assert_eq!((s.t, s.x, s.y, s.vx), (99_990_000, 49_995_000_000, 0, 500_000_000));
    assert_eq!((s.vy, s.speed, s.ay), (-4_903_028_598_100, 4_903_028_623_594, -98_090_190_000));
}

#[test]
fn launch_comes_down_and_stays_down() {
    let states = projectile_physics(launch(), 10_000, 100_000_000).unwrap();
    assert!(states[1..177].iter().all(|state| state.y > 0));
    assert!(states[177..].iter().all(|state| state.y == 0));
    // on the ground the velocity keeps falling
    assert!(states[177..].windows(2).all(|pair| pair[1].vy < pair[0].vy));
}

#[test]
fn time_is_the_index_times_the_step() {
    let states = projectile_physics(State::new(), SCALE, 50 * SCALE).unwrap();
    assert_eq!(states.len(), 50);
    for (n, state) in states.iter().enumerate() {
        assert_eq!(state.t, n as i64 * SCALE);
    }
}

#[test]
fn time_starts_at_the_initial_time() {
    let mut initial = State::new();
    initial.t = -7 * SCALE;
    let states = projectile_physics(initial, 250_000, 3 * SCALE).unwrap();
    assert_eq!(states.len(), 12);
    for (n, state) in states.iter().enumerate() {
        assert_eq!(state.t, -7 * SCALE + n as i64 * 250_000);
    }
    assert!(states.windows(2).all(|pair| pair[1].t - pair[0].t == 250_000));
}

#[test]
fn length_is_the_quotient_rounded_up() {
    let length = |dt: i64, t_max: i64| projectile_physics(State::new(), dt, t_max).unwrap().len();
    assert_eq!(length(10_000, 100_000_000), 10000);
    assert_eq!(length(3 * SCALE, 10 * SCALE), 4);
    assert_eq!(length(10 * SCALE, 10 * SCALE), 1);
    assert_eq!(length(10 * SCALE, 10 * SCALE + 1), 2);
    assert_eq!(length(10 * SCALE, 10 * SCALE - 1), 1);
    assert_eq!(length(7, 1), 1);
    assert_eq!(length(i64::MAX, 1), 1);
    assert_eq!(length(i64::MAX, i64::MAX), 1);
    assert_eq!(length(1, 1000), 1000);
}

#[test]
fn horizon_of_zero_gives_no_sample() {
    assert_eq!(projectile_physics(launch(), SCALE, 0), Ok(vec![]));
    assert_eq!(projectile_physics(launch(), 1, 0), Ok(vec![]));
}

#[test]
fn sample_count_rounds_up() {
    assert_eq!(sample_count(10_000, 100_000_000), Ok(10000));
    assert_eq!(sample_count(3, 10), Ok(4));
    assert_eq!(sample_count(5, 10), Ok(2));
    assert_eq!(sample_count(5, 11), Ok(3));
    assert_eq!(sample_count(5, 0), Ok(0));
    assert_eq!(sample_count(5, 1), Ok(1));
    assert_eq!(sample_count(1, i64::MAX), Ok(i64::MAX as u64));
    assert_eq!(sample_count(2, i64::MAX), Ok(1u64 << 62));
    assert_eq!(sample_count(i64::MAX, i64::MAX), Ok(1));
    assert_eq!(sample_count(i64::MAX, i64::MAX - 1), Ok(1));
}

#[test]
fn sample_count_rejects_bad_parameters() {
    assert_eq!(sample_count(0, 10), Err(SimulationError::InvalidParameter));
    assert_eq!(sample_count(-1, 10), Err(SimulationError::InvalidParameter));
    assert_eq!(sample_count(i64::MIN, 10), Err(SimulationError::InvalidParameter));
    assert_eq!(sample_count(1, -1), Err(SimulationError::InvalidParameter));
    assert_eq!(sample_count(1, i64::MIN), Err(SimulationError::InvalidParameter));
    assert_eq!(sample_count(0, -1), Err(SimulationError::InvalidParameter));
}

#[test]
fn first_sample_is_the_initial_state() {
    let initial = State {
        t: 11,
        stage: 12,
        x: 13,
        y: -14,
        vx: 15,
        vy: 16,
        speed: -17,
        mach: 18,
        mass: 19,
        fuel_mass: 20,
        thrust: 21,
        drag: 22,
        lift: 23,
        fx: 24,
        fy: 25,
        ax: 26,
        ay: 27,
        alpha: 28,
        gamma: 29,
        cl: 30,
        cd: 31,
    };
    let states = projectile_physics(initial, SCALE, 3 * SCALE).unwrap();
    assert_eq!(states.len(), 3);
    assert_eq!(states[0], initial);
    // not even a height below the ground or a speed that is no magnitude
    // is touched
    assert_eq!(states[0].y, -14);
    assert_eq!(states[0].speed, -17);
    let alone = projectile_physics(initial, SCALE, 1).unwrap();
    assert_eq!(alone, vec![initial]);
}

#[test]
fn each_sample_is_the_step_of_the_one_before() {
    let mut initial = launch();
    initial.mass = 1000 * SCALE;
    initial.fuel_mass = SCALE;
    initial.ax = -2 * SCALE;
    initial.fx = 9;
    let states = projectile_physics(initial, 123_457, 20 * SCALE).unwrap();
    assert_eq!(states.len(), 162);
    for pair in states.windows(2) {
        assert_eq!(pair[0].step(123_457), Some(pair[1]));
    }
}

#[test]
fn ground_clamp_after_one_step() {
    let mut initial = State::new();
    initial.y = SCALE / 2;
    initial.vy = -100 * SCALE;
    let states = projectile_physics(initial, SCALE, 2 * SCALE).unwrap();
    assert_eq!(states.len(), 2);
    assert_eq!(states[1].y, 0);
    assert_eq!(states[1].vy, -100 * SCALE);
    assert_eq!(states[1].t, SCALE);
}

#[test]
fn height_is_never_negative_after_the_start() {
    let mut initial = State::new();
    initial.y = -5 * SCALE;
    initial.vy = -SCALE;
    let states = projectile_physics(initial, SCALE, 30 * SCALE).unwrap();
    assert_eq!(states[0].y, -5 * SCALE);
    assert!(states[1..].iter().all(|state| state.y >= 0));
}

#[test]
fn mass_is_constant_without_fuel() {
    let mut initial = launch();
    initial.mass = 1234 * SCALE + 5;
    initial.fuel_mass = 0;
    let states = projectile_physics(initial, SCALE / 10, 20 * SCALE).unwrap();
    assert_eq!(states.len(), 200);
    assert!(states.iter().all(|state| state.mass == 1234 * SCALE + 5));
}

#[test]
fn mass_falls_once_by_the_initial_fuel() {
    let mut initial = State::new();
    initial.mass = 10 * SCALE;
    initial.fuel_mass = 4 * SCALE;
    let states = projectile_physics(initial, SCALE, 10 * SCALE).unwrap();
    assert_eq!(states[0].mass, 10 * SCALE);
    assert!(states[1..].iter().all(|state| state.mass == 6 * SCALE));
    assert!(states[1..].iter().all(|state| state.fuel_mass == 0));
    assert!(states.windows(2).all(|pair| pair[1].mass <= pair[0].mass));
}

#[test]
fn gravity_accumulates_step_by_step() {
    let states = projectile_physics(State::new(), SCALE, 100 * SCALE).unwrap();
    for (k, state) in states.iter().enumerate() {
        assert_eq!(state.ay, -9_810_000 * k as i64);
    }
    assert_eq!(states[99].ay, -971_190_000);
    // whatever the time step
    let states = projectile_physics(State::new(), 1, 100).unwrap();
    for (k, state) in states.iter().enumerate() {
        assert_eq!(state.ay, -GRAVITY * k as i64);
    }
}

#[test]
fn gravity_accumulates_on_an_initial_acceleration() {
    let mut initial = State::new();
    initial.ay = 5 * SCALE;
    let states = projectile_physics(initial, SCALE, 4 * SCALE).unwrap();
    let ays: Vec<i64> = states.iter().map(|state| state.ay).collect();
    assert_eq!(ays, vec![5_000_000, -4_810_000, -14_620_000, -24_430_000]);
}

#[test]
fn forces_and_horizontal_acceleration_are_carried() {
    let mut initial = State::new();
    initial.fx = 3 * SCALE;
    initial.fy = -2 * SCALE;
    initial.ax = SCALE / 3;
    let states = projectile_physics(initial, SCALE / 2, 10 * SCALE).unwrap();
    for (k, state) in states.iter().enumerate() {
        assert_eq!(state.fx, 3 * SCALE);
        assert_eq!(state.fy, -2 * SCALE);
        assert_eq!(state.ax, 333_333);
        // 0.333333 * 0.5 = 0.1666665, rounded down
        assert_eq!(state.vx, 166_666 * k as i64);
    }
}

#[test]
fn time_step_must_be_positive() {
    let initial = launch();
    assert_eq!(projectile_physics(initial, 0, 100 * SCALE), Err(SimulationError::InvalidParameter));
    assert_eq!(projectile_physics(initial, -1, 100 * SCALE), Err(SimulationError::InvalidParameter));
    assert_eq!(
        projectile_physics(initial, i64::MIN, 100 * SCALE),
        Err(SimulationError::InvalidParameter)
    );
    assert_eq!(projectile_physics(initial, 0, 0), Err(SimulationError::InvalidParameter));
}

#[test]
fn horizon_must_not_be_negative() {
    let initial = launch();
    assert_eq!(projectile_physics(initial, SCALE, -1), Err(SimulationError::InvalidParameter));
    assert_eq!(projectile_physics(initial, SCALE, i64::MIN), Err(SimulationError::InvalidParameter));
    assert_eq!(projectile_physics(initial, -SCALE, -SCALE), Err(SimulationError::InvalidParameter));
}

#[test]
fn bad_parameters_come_before_range() {
    let mut initial = State::new();
    initial.t = i64::MAX;
    assert_eq!(projectile_physics(initial, 0, SCALE), Err(SimulationError::InvalidParameter));
    assert_eq!(projectile_physics(initial, SCALE, 2 * SCALE), Err(SimulationError::OutOfRange));
}

#[test]
fn trajectory_that_leaves_the_range_is_refused() {
    let mut initial = State::new();
    initial.x = i64::MAX - 10;
    initial.vx = SCALE;
    // 0.000004 per step: the third step passes the end
    assert_eq!(projectile_physics(initial, 4, 3 * 4).unwrap().len(), 3);
    assert_eq!(projectile_physics(initial, 4, 4 * 4), Err(SimulationError::OutOfRange));
    assert_eq!(projectile_physics(initial, 4, 1000), Err(SimulationError::OutOfRange));
}

#[test]
fn range_is_asked_only_of_the_samples_returned() {
    // the sample after the last one would not fit
    let mut initial = State::new();
    initial.t = i64::MAX - 2;
    let states = projectile_physics(initial, 1, 3).unwrap();
    assert_eq!(states.len(), 3);
    assert_eq!(states[2].t, i64::MAX);
    assert_eq!(projectile_physics(initial, 1, 4), Err(SimulationError::OutOfRange));
    // a single sample is the initial state, whatever would follow
    let mut initial = State::new();
    initial.mass = i64::MIN;
    initial.fuel_mass = i64::MAX;
    assert_eq!(projectile_physics(initial, SCALE, SCALE), Ok(vec![initial]));
    assert_eq!(projectile_physics(initial, SCALE, SCALE + 1), Err(SimulationError::OutOfRange));
}

#[test]
fn runaway_gravity_ends_a_long_fall() {
    // with a step of 1000 the velocity passes the range at sample 43365
    let result = projectile_physics(State::new(), 1000 * SCALE, 43_365_000 * SCALE);
    assert_eq!(result.unwrap().len(), 43365);
    let result = projectile_physics(State::new(), 1000 * SCALE, 43_366_000 * SCALE);
    assert_eq!(result, Err(SimulationError::OutOfRange));
    let result = projectile_physics(State::new(), 1000 * SCALE, 50_000_000 * SCALE);
    assert_eq!(result, Err(SimulationError::OutOfRange));
    let states = projectile_physics(State::new(), 1000 * SCALE, 1000 * 1000 * SCALE).unwrap();
    assert_eq!(states.len(), 1000);
    assert_eq!(states[999].vy, -GRAVITY * 1000 * (999 * 998 / 2));
}
