use drone::controller::{PD, PID};

#[test]
fn pd_proportional_term() {
    let mut pd = PD::new(1_000_000, 0);
    assert_eq!(pd.get_next(1234, 1000), 1234);
    assert_eq!(pd.get_next(-50, 1000), -50);
}

#[test]
fn pd_derivative_term() {
    let mut pd = PD::new(0, 1_000_000);
    // error rises by 1000 over 1000 ticks: 1_000_000 per second
    assert_eq!(pd.get_next(1000, 1000), 1_000_000);
    assert_eq!(pd.last_v, 1_000_000);
    // falls by 500 over 250_000 ticks: -2000 per second
    assert_eq!(pd.get_next(500, 250_000), -2000);
}

#[test]
fn pd_holds_rate_when_no_time_passed() {
    let mut pd = PD::new(0, 1_000_000);
    assert_eq!(pd.get_next(1000, 1000), 1_000_000);
    assert_eq!(pd.get_next(3000, 0), 1_000_000);
    assert_eq!(pd.last_error, 3000);
}

#[test]
fn pd_sums_scaled_terms() {
    let mut pd = PD::new(500_000, 250_000);
    // 0.5 * 1000 + 0.25 * (1000 per 0.5 s = 2000 per s)
    assert_eq!(pd.get_next(1000, 500_000), 500 + 500);
}

#[test]
fn pid_integrates_error_over_time() {
    let mut pid = PID::new(0, 1_000_000, 0);
    // 1.0 * 2000 error over one second
    assert_eq!(pid.get_next(2000, 1_000_000), 2000);
    assert_eq!(pid.get_next(2000, 500_000), 3000);
    assert_eq!(pid.get_next(-6000, 500_000), 0);
}
