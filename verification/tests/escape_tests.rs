use julia::fixed::SCALE;
use julia::{is_in, Complex};

#[test]
fn boundary_escape_at_iteration_zero() {
    // |z0|^2 = 9 >= 4 before any iteration.
    let z0 = Complex::new(3 * SCALE, 0);
    let c = Complex::new(0, 0);
    assert_eq!(is_in(z0, c, 10, 1), Some(0));
}

#[test]
fn known_escaping_case() {
    // 0 -> (1,1) -> (1,3), and |(1,3)|^2 = 10 >= 4.
    let z0 = Complex::new(0, 0);
    let c = Complex::new(SCALE, SCALE);
    assert_eq!(is_in(z0, c, 4, 1), Some(2));
}

#[test]
fn known_bounded_case() {
    // For c = -0.5 the orbit of 0 converges to a fixed point well inside
    // the escape radius.
    let z0 = Complex::new(0, 0);
    let c = Complex::new(-SCALE / 2, 0);
    assert_eq!(is_in(z0, c, 200, 1), None);
}

#[test]
fn zero_constant_never_escapes() {
    let z0 = Complex::new(0, 0);
    let c = Complex::new(0, 0);
    assert_eq!(is_in(z0, c, 100, 1), None);
}

#[test]
fn near_pinch_point_escapes() {
    // c = -0.75 + 0.1i lies just outside the bounded region: the orbit of 0
    // lingers near a 2-cycle and then escapes after a few dozen iterations.
    let z0 = Complex::new(0, 0);
    let c = Complex::new(-3 * SCALE / 4, SCALE / 10);
    let r = is_in(z0, c, 200, 1);
    assert!(r.is_some());
    let k = r.unwrap();
    assert!(0 < k && k < 200);
}

#[test]
fn escape_time_is_multiple_of_step() {
    // Same escaping orbit as `known_escaping_case`, folded 3 raw steps per
    // unit: the escape is reported at the folded boundary 3.
    let z0 = Complex::new(0, 0);
    let c = Complex::new(SCALE, SCALE);
    assert_eq!(is_in(z0, c, 10, 3), Some(3));
}

#[test]
fn folding_holds_escaped_points() {
    // z0 = 1.5 escapes after one raw application inside the fold of 4;
    // the escape is still reported at the folded boundary 4.
    let z0 = Complex::new(3 * SCALE / 2, 0);
    let c = Complex::new(SCALE, SCALE);
    assert_eq!(is_in(z0, c, 8, 4), Some(4));
}

#[test]
fn budget_bounds_escape_time() {
    // A budget too small to reach the escape reports no escape.
    let z0 = Complex::new(0, 0);
    let c = Complex::new(SCALE, SCALE);
    assert_eq!(is_in(z0, c, 2, 1), None);
}
