use nbody::body::{Body, Color, Params};
use nbody::integrator::{pull, soften, step, Pull};
use nbody::scalar::Scalar;

fn s(x: f32) -> Scalar {
    Scalar::from_bits(x.to_bits())
}

fn f(x: Scalar) -> f32 {
    f32::from_bits(x.to_bits())
}

fn body(mass: f32, x: f32, y: f32, vx: f32, vy: f32) -> Body {
    Body::new(s(mass), s(10.0), s(y), s(vy), s(x), s(vx), Color::from_rgb(1, 2, 3))
}

fn params(g: f32, min_separation: f32, time_step: f32) -> Params {
    Params {
        gravitational_constant: s(g),
        min_separation: s(min_separation),
        time_step: s(time_step),
    }
}

/// Whether a computed pattern is the machine's number, any NaN standing for
/// any other.
fn same(bits: Scalar, expected: f32) -> bool {
    if expected.is_nan() {
        f(bits).is_nan()
    } else {
        bits.to_bits() == expected.to_bits()
    }
}

/// The pull in the machine's own arithmetic: (mass, x, y) onto and from.
fn machine_pull(onto: (f32, f32), from: (f32, f32, f32), g: f32, min: f32, dt: f32) -> (f32, f32) {
    let dx = onto.0 - from.1;
    let dy = onto.1 - from.2;
    let mut r2 = (dx * dx) + (dy * dy);
    let magnitude = r2.sqrt();
    if r2 < min * min {
        r2 = min * min;
    }
    (
        ((from.0 * g) / r2) * (dx / magnitude) * dt,
        ((from.0 * g) / r2) * (dy / magnitude) * dt,
    )
}

/// One step in the machine's own arithmetic on rows of
/// (mass, x, y, vx, vy).
fn machine_step(rows: &mut Vec<[f32; 5]>, g: f32, min: f32, dt: f32) {
    for i in 0..rows.len() {
        for j in 0..rows.len() {
            if i == j {
                continue;
            }
            let p = machine_pull(
                (rows[i][1], rows[i][2]),
                (rows[j][0], rows[j][1], rows[j][2]),
                g,
                min,
                dt,
            );
            rows[i][3] -= p.0;
            rows[i][4] -= p.1;
        }
    }
    for i in 0..rows.len() {
        rows[i][1] += rows[i][3] * dt;
        rows[i][2] += rows[i][4] * dt;
    }
}

fn next(state: &mut u64) -> u32 {
    *state ^= *state << 13;
    *state ^= *state >> 7;
    *state ^= *state << 17;
    (*state >> 16) as u32
}

fn spread(state: &mut u64, scale: f32) -> f32 {
    ((next(state) % 2_000_001) as f32 / 1000.0 - 1000.0) * scale
}

#[test]
fn scenario_two_equal_bodies_attract() {
    let p = params(5.0, 50.0, 1.0);
    let mut bodies = vec![body(100.0, 400.0, 500.0, 0.0, 0.0), body(100.0, 600.0, 500.0, 0.0, 0.0)];
    step(&mut bodies, &p);
    assert_eq!(f(bodies[0].x_vel), 0.0125);
    assert_eq!(f(bodies[1].x_vel), -0.0125);
    assert_eq!(f(bodies[0].y_vel), 0.0);
    assert_eq!(f(bodies[1].y_vel), 0.0);
    assert_eq!(f(bodies[0].x_pos), 400.0f32 + 0.0125f32);
    assert_eq!(f(bodies[1].x_pos), 600.0f32 - 0.0125f32);
    assert_eq!(f(bodies[0].y_pos), 500.0);
    assert_eq!(f(bodies[1].y_pos), 500.0);
}

#[test]
fn scenario_pull_is_what_leaves_the_velocity() {
    let p = params(5.0, 50.0, 1.0);
    let a = body(100.0, 400.0, 500.0, 0.0, 0.0);
    let b = body(100.0, 600.0, 500.0, 0.0, 0.0);
    let on_a: Pull = pull(&a, &b, &p);
    let on_b: Pull = pull(&b, &a, &p);
    assert_eq!(f(on_a.x), -0.0125);
    assert_eq!(f(on_b.x), 0.0125);
    assert_eq!(f(on_a.y), 0.0);
    assert_eq!(f(on_b.y), 0.0);
}

#[test]
fn pull_has_exact_value_off_axis() {
    // Offset (3, 4): r2 = 25, length 5, above a floor of 1.
    let p = params(2.0, 1.0, 0.5);
    let a = body(1.0, 3.0, 4.0, 0.0, 0.0);
    let b = body(50.0, 0.0, 0.0, 0.0, 0.0);
    let got = pull(&a, &b, &p);
    // strength = 50 * 2 / 25 = 4; direction = (0.6, 0.8); half a second.
    assert_eq!(got.x, s((4.0f32 * (3.0f32 / 5.0f32)) * 0.5f32));
    assert_eq!(got.y, s((4.0f32 * (4.0f32 / 5.0f32)) * 0.5f32));
}

#[test]
fn pull_agrees_with_the_machine() {
    let mut state: u64 = 0x2545_f491_4f6c_dd1d;
    for round in 0..50_000 {
        let scale = if round % 3 == 0 { 1.0 } else if round % 3 == 1 { 0.001 } else { 1.0e4 };
        let (ax, ay) = (spread(&mut state, scale), spread(&mut state, scale));
        let (bx, by) = (spread(&mut state, scale), spread(&mut state, scale));
        let mass = spread(&mut state, 1.0).abs() + 1.0;
        let g = spread(&mut state, 0.01);
        let min = spread(&mut state, 0.1).abs();
        let dt = spread(&mut state, 0.001);
        let got = pull(&body(1.0, ax, ay, 0.0, 0.0), &body(mass, bx, by, 0.0, 0.0), &params(g, min, dt));
        let want = machine_pull((ax, ay), (mass, bx, by), g, min, dt);
        assert!(same(got.x, want.0), "x: {:?} {:?}", f(got.x), want.0);
        assert!(same(got.y, want.1), "y: {:?} {:?}", f(got.y), want.1);
    }
}

#[test]
fn pull_agrees_with_the_machine_on_arbitrary_patterns() {
    let mut state: u64 = 0x0123_4567_89ab_cdef;
    for _ in 0..50_000 {
        let v: Vec<f32> = (0..8).map(|_| f32::from_bits(next(&mut state))).collect();
        let got = pull(
            &body(1.0, v[0], v[1], 0.0, 0.0),
            &body(v[4], v[2], v[3], 0.0, 0.0),
            &params(v[5], v[6], v[7]),
        );
        let want = machine_pull((v[0], v[1]), (v[4], v[2], v[3]), v[5], v[6], v[7]);
        assert!(same(got.x, want.0), "x: {:?} {:?} from {:?}", f(got.x), want.0, v);
        assert!(same(got.y, want.1), "y: {:?} {:?} from {:?}", f(got.y), want.1, v);
    }
}

#[test]
fn pull_reads_mass_of_the_attracting_body_only() {
    let p = params(5.0, 50.0, 1.0);
    let light = body(1.0, 400.0, 500.0, 0.0, 0.0);
    let heavy = body(1000.0, 400.0, 500.0, 3.0, -3.0);
    let from = body(100.0, 600.0, 450.0, 0.0, 0.0);
    assert_eq!(pull(&light, &from, &p), pull(&heavy, &from, &p));
}

#[test]
fn equal_masses_pull_in_opposite_directions() {
    let p = params(5.0, 50.0, 1.0);
    let mut state: u64 = 0x1357_9bdf_0246_8ace;
    for _ in 0..10_000 {
        let a = body(75.0, spread(&mut state, 1.0), spread(&mut state, 1.0), 0.0, 0.0);
        let b = body(75.0, spread(&mut state, 1.0), spread(&mut state, 1.0), 0.0, 0.0);
        if a.x_pos == b.x_pos || a.y_pos == b.y_pos {
            continue;
        }
        let on_a = pull(&a, &b, &p);
        let on_b = pull(&b, &a, &p);
        assert_eq!(f(on_a.x), -f(on_b.x));
        assert_eq!(f(on_a.y), -f(on_b.y));
        let mut pair = vec![a, b];
        step(&mut pair, &p);
        assert_eq!(f(pair[0].x_vel), -f(pair[1].x_vel));
        assert_eq!(f(pair[0].y_vel), -f(pair[1].y_vel));
    }
}

#[test]
fn below_the_floor_the_pull_is_that_at_the_floor() {
    let p = params(5.0, 50.0, 1.0);
    let from = body(100.0, 0.0, 0.0, 0.0, 0.0);
    let at_floor = pull(&body(100.0, 50.0, 0.0, 0.0, 0.0), &from, &p);
    assert_eq!(f(at_floor.x), (100.0f32 * 5.0f32) / 2500.0f32);
    for d in [0.5f32, 1.0, 10.0, 25.0, 49.0, 49.999] {
        let near = pull(&body(100.0, d, 0.0, 0.0, 0.0), &from, &p);
        assert_eq!(near.x, at_floor.x, "at distance {}", d);
        assert_eq!(f(near.y), 0.0);
    }
    let beyond = pull(&body(100.0, 51.0, 0.0, 0.0, 0.0), &from, &p);
    assert!(f(beyond.x) < f(at_floor.x));
}

#[test]
fn direction_uses_the_unsoftened_length() {
    // Offset (3, 4) under a floor of 50: the strength divides by 2500, the
    // direction by the true length 5.
    let p = params(5.0, 50.0, 1.0);
    let got = pull(&body(1.0, 3.0, 4.0, 0.0, 0.0), &body(100.0, 0.0, 0.0, 0.0, 0.0), &p);
    let strength = (100.0f32 * 5.0f32) / 2500.0f32;
    assert_eq!(f(got.x), strength * (3.0f32 / 5.0f32) * 1.0f32);
    assert_eq!(f(got.y), strength * (4.0f32 / 5.0f32) * 1.0f32);
}

#[test]
fn coincident_bodies_give_nan() {
    let p = params(5.0, 50.0, 1.0);
    let mut bodies = vec![body(100.0, 500.0, 500.0, 0.0, 0.0), body(100.0, 500.0, 500.0, 0.0, 0.0)];
    step(&mut bodies, &p);
    for b in &bodies {
        assert!(f(b.x_vel).is_nan());
        assert!(f(b.y_vel).is_nan());
        assert!(f(b.x_pos).is_nan());
        assert!(f(b.y_pos).is_nan());
    }
}

#[test]
fn zero_time_step_changes_nothing() {
    let p = params(5.0, 50.0, 0.0);
    let start = vec![
        body(100.0, 400.0, 500.0, 1.5, -2.0),
        body(30.0, 600.0, 520.0, 0.0, 0.25),
        body(7.0, 10.0, 900.0, -4.0, 0.0),
    ];
    let mut bodies = start.clone();
    step(&mut bodies, &p);
    for i in 0..start.len() {
        assert_eq!(f(bodies[i].x_pos), f(start[i].x_pos));
        assert_eq!(f(bodies[i].y_pos), f(start[i].y_pos));
        assert_eq!(f(bodies[i].x_vel), f(start[i].x_vel));
        assert_eq!(f(bodies[i].y_vel), f(start[i].y_vel));
    }
}

#[test]
fn step_of_no_body_and_of_one() {
    let p = params(5.0, 50.0, 2.0);
    let mut none: Vec<Body> = Vec::new();
    step(&mut none, &p);
    assert!(none.is_empty());
    let mut one = vec![body(100.0, 10.0, 20.0, 1.5, -0.5)];
    step(&mut one, &p);
    assert_eq!(f(one[0].x_vel), 1.5);
    assert_eq!(f(one[0].y_vel), -0.5);
    assert_eq!(f(one[0].x_pos), 13.0);
    assert_eq!(f(one[0].y_pos), 19.0);
}

#[test]
fn step_keeps_mass_radius_and_colour() {
    let p = params(5.0, 50.0, 1.0);
    let start = vec![body(100.0, 400.0, 500.0, 0.0, 0.0), body(3.0, 600.0, 500.0, 0.0, 0.0)];
    let mut bodies = start.clone();
    step(&mut bodies, &p);
    assert_eq!(bodies.len(), 2);
    for i in 0..2 {
        assert_eq!(bodies[i].mass, start[i].mass);
        assert_eq!(bodies[i].radius, start[i].radius);
        assert_eq!(bodies[i].rgb, start[i].rgb);
    }
}

#[test]
fn positions_move_by_the_new_velocity() {
    let p = params(5.0, 50.0, 1.0);
    let mut bodies = vec![body(100.0, 400.0, 500.0, 2.0, 0.0), body(100.0, 600.0, 500.0, 0.0, 0.0)];
    step(&mut bodies, &p);
    assert_eq!(f(bodies[0].x_vel), 2.0f32 - (-0.0125f32));
    assert_eq!(f(bodies[0].x_pos), 400.0f32 + (2.0f32 + 0.0125f32) * 1.0f32);
}

#[test]
fn step_agrees_with_the_machine_over_a_run() {
    let mut state: u64 = 0xfeed_face_cafe_beef;
    for round in 0..200 {
        let n = 2 + (round % 5);
        let g = 5.0f32;
        let min = 50.0f32;
        let dt = if round % 2 == 0 { 1.0f32 } else { 0.25f32 };
        let mut rows: Vec<[f32; 5]> = Vec::new();
        let mut bodies: Vec<Body> = Vec::new();
        for _ in 0..n {
            let row = [
                spread(&mut state, 1.0).abs() + 1.0,
                spread(&mut state, 1.0),
                spread(&mut state, 1.0),
                spread(&mut state, 0.01),
                spread(&mut state, 0.01),
            ];
            bodies.push(body(row[0], row[1], row[2], row[3], row[4]));
            rows.push(row);
        }
        let p = params(g, min, dt);
        for _ in 0..25 {
            step(&mut bodies, &p);
            machine_step(&mut rows, g, min, dt);
            for i in 0..n {
                assert!(same(bodies[i].x_pos, rows[i][1]));
                assert!(same(bodies[i].y_pos, rows[i][2]));
                assert!(same(bodies[i].x_vel, rows[i][3]));
                assert!(same(bodies[i].y_vel, rows[i][4]));
            }
        }
    }
}

#[test]
fn velocities_come_from_the_positions_before_the_step() {
    // Three bodies in a row: the pull on the last one must not see the first
    // two already moved.
    let p = params(5.0, 1.0, 1.0);
    let mut bodies = vec![
        body(1000.0, 0.0, 0.0, 10.0, 0.0),
        body(1000.0, 100.0, 0.0, -10.0, 0.0),
        body(1.0, 200.0, 0.0, 0.0, 0.0),
    ];
    step(&mut bodies, &p);
    let from_first = ((1000.0f32 * 5.0f32) / 40000.0f32) * (200.0f32 / 200.0f32) * 1.0f32;
    let from_second = ((1000.0f32 * 5.0f32) / 10000.0f32) * (100.0f32 / 100.0f32) * 1.0f32;
    assert_eq!(f(bodies[2].x_vel), (0.0f32 - from_first) - from_second);
}

#[test]
fn soften_raises_to_the_floor() {
    assert_eq!(soften(s(10.0), s(2500.0)), s(2500.0));
    assert_eq!(soften(s(2499.9998), s(2500.0)), s(2500.0));
    assert_eq!(soften(s(0.0), s(2500.0)), s(2500.0));
    assert_eq!(soften(s(-0.0), s(0.0)), s(-0.0));
}

#[test]
fn soften_keeps_what_is_not_below_the_floor() {
    assert_eq!(soften(s(2500.0), s(2500.0)), s(2500.0));
    assert_eq!(soften(s(40000.0), s(2500.0)), s(40000.0));
    assert_eq!(soften(s(f32::INFINITY), s(2500.0)), s(f32::INFINITY));
    let nan = Scalar::from_bits(0x7fc0_0001);
    assert_eq!(soften(nan, s(2500.0)), nan);
    assert_eq!(soften(s(1.0), nan), s(1.0));
}

#[test]
fn soften_agrees_with_the_machine() {
    let mut state: u64 = 0x6a09_e667_f3bc_c908;
    for _ in 0..100_000 {
        let (a, b) = (next(&mut state), next(&mut state));
        let (x, y) = (f32::from_bits(a), f32::from_bits(b));
        let want = if x < y { b } else { a };
        assert_eq!(soften(Scalar::from_bits(a), Scalar::from_bits(b)).to_bits(), want);
    }
}

fn same_number(a: Scalar, b: Scalar) -> bool {
    a == b || (f(a) == 0.0 && f(b) == 0.0)
}

#[test]
fn zero_time_step_moves_no_lone_body_whatever_its_pattern() {
    let mut state: u64 = 0xbb67_ae85_84ca_a73b;
    for round in 0..100_000 {
        let x = Scalar::from_bits(next(&mut state));
        let y = Scalar::from_bits(next(&mut state));
        let vx = Scalar::from_bits(next(&mut state));
        let vy = Scalar::from_bits(next(&mut state));
        if !f(vx).is_finite() || !f(vy).is_finite() || f(x).is_nan() || f(y).is_nan() {
            continue;
        }
        let dt = if round % 2 == 0 { 0.0f32 } else { -0.0f32 };
        let start = Body::new(s(5.0), s(1.0), y, vy, x, vx, Color::from_rgb(0, 0, 0));
        let mut bodies = vec![start];
        step(&mut bodies, &params(5.0, 50.0, dt));
        assert!(same_number(bodies[0].x_pos, x));
        assert!(same_number(bodies[0].y_pos, y));
        assert!(same_number(bodies[0].x_vel, vx));
        assert!(same_number(bodies[0].y_vel, vy));
    }
}

#[test]
fn zero_time_step_moves_no_body_of_a_crowd() {
    let mut state: u64 = 0x3c6e_f372_fe94_f82b;
    for round in 0..2_000 {
        let dt = if round % 2 == 0 { 0.0f32 } else { -0.0f32 };
        let n = 2 + round % 4;
        let start: Vec<Body> = (0..n)
            .map(|k| {
                body(
                    spread(&mut state, 1.0).abs() + 1.0,
                    3000.0 * k as f32 + spread(&mut state, 1.0),
                    spread(&mut state, 1.0),
                    spread(&mut state, 10.0),
                    if k == 0 { -0.0 } else { spread(&mut state, 1.0e-3) },
                )
            })
            .collect();
        let mut bodies = start.clone();
        step(&mut bodies, &params(5.0, 50.0, dt));
        for k in 0..n {
            assert!(same_number(bodies[k].x_pos, start[k].x_pos));
            assert!(same_number(bodies[k].y_pos, start[k].y_pos));
            assert!(same_number(bodies[k].x_vel, start[k].x_vel));
            assert!(same_number(bodies[k].y_vel, start[k].y_vel));
        }
    }
}
