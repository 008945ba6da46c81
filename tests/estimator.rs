use drone::estimator::{integrate, plausible_gravity, ComplementaryFilter};
use drone::vector3::Vector3;

fn level() -> Vector3<i32> {
    Vector3::new(0, 0, 1000)
}

#[test]
fn integrate_follows_rate() {
    assert_eq!(integrate(1000, 90_000, 500_000), 46_000);
    assert_eq!(integrate(1000, -90_000, 500_000), -44_000);
    assert_eq!(integrate(5, 1000, 0), 5);
}

#[test]
fn integrate_wraps_past_half_turn() {
    assert_eq!(integrate(179_000, 200_000, 10_000), -179_000);
    assert_eq!(integrate(-179_000, -200_000, 10_000), 179_000);
    assert_eq!(integrate(0, 0, 0), 0);
    assert_eq!(integrate(180_000, 0, 0), -180_000);
}

#[test]
fn gravity_band() {
    assert!(plausible_gravity(Vector3::new(0, 0, 1000), 1000, 100));
    assert!(plausible_gravity(Vector3::new(600, 0, 800), 1000, 0));
    assert!(!plausible_gravity(Vector3::new(0, 0, 1200), 1000, 100));
    assert!(!plausible_gravity(Vector3::new(0, 0, 800), 1000, 100));
}

#[test]
fn blends_when_trusted() {
    let mut f = ComplementaryFilter::new(0, 100, 1000, 100, 10_000);
    // gyro says 1000, accelerometer says 2000: 0.1 * 2000 + 0.9 * 1000
    assert_eq!(f.push(level(), 2000, 100_000, 10_000), 1100);
    assert_eq!(f.angle, 1100);
}

#[test]
fn zero_z_acceleration_uses_gyro_only() {
    let mut f = ComplementaryFilter::new(0, 100, 1000, 100, 10_000);
    assert_eq!(f.push(Vector3::new(1000, 0, 0), 90_000, 100_000, 10_000), 1000);
    assert_eq!(f.push(Vector3::new(0, 0, 0), 0, 0, 10_000), 1000);
}

#[test]
fn implausible_gravity_uses_gyro_only() {
    let mut f = ComplementaryFilter::new(0, 500, 1000, 100, 10_000);
    assert_eq!(f.push(Vector3::new(0, 0, 2000), 2000, 100_000, 10_000), 1000);
}

#[test]
fn disagreement_uses_gyro_only() {
    let mut f = ComplementaryFilter::new(0, 500, 1000, 100, 500);
    assert_eq!(f.push(level(), 2000, 100_000, 10_000), 1000);
}

#[test]
fn settles_under_constant_gyro_bias() {
    // true angle 5 degrees; gyro biased by 1 degree per second; 100 Hz
    let truth = 5000;
    let mut f = ComplementaryFilter::new(15_000, 20, 1000, 100, 20_000);
    for _ in 0..2000 {
        f.push(level(), truth, 1000, 10_000);
    }
    // drift per step d = 10; tolerance ((1000 - 20) * 10 + 1000) / 20 + 1
    let tolerance = (980 * 10 + 1000) / 20 + 1;
    assert!((f.angle - truth).abs() <= tolerance, "{}", f.angle);
    for _ in 0..500 {
        f.push(level(), truth, 1000, 10_000);
        assert!((f.angle - truth).abs() <= tolerance);
    }
}
