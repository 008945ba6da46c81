//! The motor mixer, the saturation policy and the mapping of motor speeds to
//! pulse widths.
//!
//! Motors are numbered clockwise from the front left: front left, front
//! right, back right, back left. Speeds are in per-mille of full power.
use vstd::prelude::*;
use vstd::arithmetic::div_mod::{lemma_div_by_multiple, lemma_div_is_ordered};
use crate::arith::trunc_div;
use crate::radio::{RadioCommand, UNIT};

verus! {

/// Pulse width for no thrust (1 ms).
pub const MIN_THROTTLE: u16 = 0x6666;

/// Pulse width for full thrust (2 ms).
pub const MAX_THROTTLE: u16 = 0xCCCC;

/// Below this largest speed every motor is stopped (per-mille).
pub const IDLE_CUTOFF: i64 = 50;

/// Authority of the sticks over the speed difference between motors in full
/// manual mode (per-mille of full power).
pub const MAX_THROTTLE_DIFFERENCE: i64 = 100;

/// Largest magnitude of a mixer input.
pub const MIX_LIMIT: i64 = 1_000_000_000_000_000_000;

pub open spec fn ints(s: Seq<i64>) -> Seq<int> {
    s.map_values(|v: i64| v as int)
}

pub open spec fn duty_ints(s: Seq<u16>) -> Seq<int> {
    s.map_values(|v: u16| v as int)
}

pub open spec fn max2(a: int, b: int) -> int {
    if a >= b {
        a
    } else {
        b
    }
}

/// The largest of four speeds.
pub open spec fn max_of(s: Seq<int>) -> int {
    max2(max2(max2(s[0], s[1]), s[2]), s[3])
}

/// Motor speeds for a collective throttle and roll (`x`), pitch (`y`) and yaw
/// (`z`) corrections.
pub open spec fn mixed(t: int, x: int, y: int, z: int) -> Seq<int> {
    seq![t + x - y + z, t - x - y - z, t - x + y + z, t + x + y - z]
}

/// The saturation policy: all stopped when the largest speed is below the idle
/// cutoff; scaled down together so that the largest is full power when it is
/// above full power; unchanged otherwise.
pub open spec fn saturated(s: Seq<int>) -> Seq<int> {
    let m = max_of(s);
    if m < IDLE_CUTOFF {
        seq![0int, 0int, 0int, 0int]
    } else if m > UNIT {
        Seq::new(4, |i: int| trunc_div(s[i] * UNIT, m))
    } else {
        s
    }
}

/// A speed held to `[0, 1000]`.
pub open spec fn clamp_unit(v: int) -> int {
    if v < 0 {
        0
    } else if v > UNIT {
        UNIT as int
    } else {
        v
    }
}

/// The pulse width for a speed: linear from `MIN_THROTTLE` to `MAX_THROTTLE`.
pub open spec fn duty_of(v: int) -> int {
    MIN_THROTTLE + clamp_unit(v) * (MAX_THROTTLE - MIN_THROTTLE) / (UNIT as int)
}

pub open spec fn duties(s: Seq<int>) -> Seq<int> {
    Seq::new(4, |i: int| duty_of(s[i]))
}

/// A stick deflection scaled by the manual authority.
pub open spec fn authority(v: int) -> int {
    trunc_div(v * MAX_THROTTLE_DIFFERENCE, UNIT as int)
}

/// The pulse widths that full manual mode gives for a command.
pub open spec fn manual_duties(c: RadioCommand) -> Seq<int> {
    duties(
        saturated(
            mixed(
                c.z_throttle as int,
                authority(c.x_throttle as int),
                authority(c.y_throttle as int),
                authority(c.twist_throttle as int),
            ),
        ),
    )
}

/// Applies the fixed mixer: `fl = t + x - y + z`, `fr = t - x - y - z`,
/// `br = t - x + y + z`, `bl = t + x + y - z`.
pub fn mix(throttle: i64, x: i64, y: i64, z: i64) -> (r: [i64; 4])
    requires
        -MIX_LIMIT <= throttle <= MIX_LIMIT,
        -MIX_LIMIT <= x <= MIX_LIMIT,
        -MIX_LIMIT <= y <= MIX_LIMIT,
        -MIX_LIMIT <= z <= MIX_LIMIT,
    ensures
        ints(r@) == mixed(throttle as int, x as int, y as int, z as int),
{
    let r = [throttle + x - y + z, throttle - x - y - z, throttle - x + y + z, throttle + x + y - z];
    assert(ints(r@) =~= mixed(throttle as int, x as int, y as int, z as int));
    r
}

/// The largest of four speeds.
pub fn max_speed(speeds: &[i64; 4]) -> (r: i64)
    ensures
        r == max_of(ints(speeds@)),
{
    let mut max = speeds[0];
    let mut i: usize = 1;
    while i < 4
        invariant
            1 <= i <= 4,
            max == (if i == 1 {
                speeds[0] as int
            } else if i == 2 {
                max2(speeds[0] as int, speeds[1] as int)
            } else if i == 3 {
                max2(max2(speeds[0] as int, speeds[1] as int), speeds[2] as int)
            } else {
                max_of(ints(speeds@))
            }),
        decreases 4 - i,
    {
        if speeds[i] > max {
            max = speeds[i];
        }
        i = i + 1;
    }
    max
}

proof fn lemma_max_of_bounds(s: Seq<int>)
    requires
        s.len() == 4,
    ensures
        forall|i: int| 0 <= i < 4 ==> s[i] <= max_of(s),
        exists|i: int| 0 <= i < 4 && s[i] == max_of(s),
{
    let m = max_of(s);
    if s[0] == m {
        assert(s[0] == m);
    } else if s[1] == m {
        assert(s[1] == m);
    } else if s[2] == m {
        assert(s[2] == m);
    } else {
        assert(s[3] == m);
    }
}

/// Speeds scaled by `1000 / m` stay at or below full power, and the one equal
/// to `m` becomes exactly full power.
proof fn lemma_scaled_max(s: Seq<int>, m: int)
    requires
        s.len() == 4,
        m == max_of(s),
        m > UNIT,
    ensures
        max_of(Seq::new(4, |i: int| trunc_div(s[i] * UNIT, m))) == UNIT,
{
    let r = Seq::new(4, |i: int| trunc_div(s[i] * UNIT, m));
    lemma_max_of_bounds(s);
    assert forall|i: int| 0 <= i < 4 implies r[i] <= UNIT by {
        if s[i] >= 0 {
            assert(s[i] * UNIT <= m * UNIT) by (nonlinear_arith)
                requires
                    s[i] <= m,
            ;
            lemma_div_is_ordered(s[i] * UNIT, m * UNIT, m);
            lemma_div_by_multiple(UNIT as int, m);
            assert(m * UNIT == UNIT * m) by (nonlinear_arith);
        } else {
            assert(-(s[i] * UNIT) >= 0) by (nonlinear_arith)
                requires
                    s[i] < 0,
            ;
            assert((-(s[i] * UNIT)) / m >= 0) by (nonlinear_arith)
                requires
                    -(s[i] * UNIT) >= 0,
                    m > 0,
            ;
        }
    }
    let j = choose|j: int| 0 <= j < 4 && s[j] == max_of(s);
    lemma_div_by_multiple(UNIT as int, m);
    assert(m * UNIT == UNIT * m) by (nonlinear_arith);
    assert(r[j] == UNIT);
    lemma_max_of_bounds(r);
}

/// Applies the saturation policy to mixer output. When the largest speed is
/// above full power, every speed is scaled by the same factor, so that the
/// largest becomes exactly full power and the ratios between them are kept
/// (up to rounding toward zero).
pub fn unreliable_speeds(speeds: [i64; 4]) -> (r: [i64; 4])
    requires
        forall|i: int| 0 <= i < 4 ==> -4 * MIX_LIMIT <= #[trigger] speeds[i] <= 4 * MIX_LIMIT,
    ensures
        ints(r@) == saturated(ints(speeds@)),
        max_of(ints(speeds@)) < IDLE_CUTOFF ==> forall|i: int| 0 <= i < 4 ==> r[i] == 0,
        max_of(ints(speeds@)) > UNIT ==> max_of(ints(r@)) == UNIT,
        max_of(ints(speeds@)) >= IDLE_CUTOFF ==> max_of(ints(r@)) <= UNIT,
        forall|i: int| 0 <= i < 4 ==> -4 * MIX_LIMIT <= #[trigger] r[i] <= 4 * MIX_LIMIT,
{
    let ghost s = ints(speeds@);
    let max = max_speed(&speeds);
    if max < IDLE_CUTOFF {
        let r = [0i64; 4];
        assert(ints(r@) =~= saturated(s));
        return r;
    }
    if max <= UNIT as i64 {
        assert(ints(speeds@) =~= saturated(s));
        return speeds;
    }
    let mut r = speeds;
    let mut i: usize = 0;
    while i < 4
        invariant
            i <= 4,
            max == max_of(s),
            max > UNIT,
            s == ints(speeds@),
            forall|k: int| 0 <= k < 4 ==> -4 * MIX_LIMIT <= #[trigger] speeds[k] <= 4 * MIX_LIMIT,
            forall|k: int| 0 <= k < i ==> r[k] == trunc_div(s[k] * UNIT, max as int),
            forall|k: int| 0 <= k < 4 ==> -4 * MIX_LIMIT <= #[trigger] r[k] <= 4 * MIX_LIMIT,
        decreases 4 - i,
    {
        let v = speeds[i] as i128;
        let q: i128 = if v >= 0 {
            v * (UNIT as i128) / (max as i128)
        } else {
            -((-v) * (UNIT as i128) / (max as i128))
        };
        proof {
            let a: int = if v >= 0 { v as int } else { -(v as int) };
            assert(0 <= a * UNIT / (max as int) <= a) by (nonlinear_arith)
                requires
                    a >= 0,
                    max > UNIT,
            {
                assert(a * UNIT <= a * max);
                vstd::arithmetic::div_mod::lemma_div_is_ordered(a * UNIT, a * max, max as int);
                vstd::arithmetic::div_mod::lemma_div_by_multiple(a, max as int);
                vstd::arithmetic::div_mod::lemma_div_pos_is_pos(a * UNIT, max as int);
            }
            assert(v * (UNIT as i128) == (v as int) * UNIT);
        }
        r[i] = q as i64;
        i = i + 1;
    }
    proof {
        assert(ints(r@) =~= saturated(s));
        lemma_scaled_max(s, max as int);
    }
    r
}

/// The pulse width for one motor speed.
pub fn duty(speed: i64) -> (r: u16)
    ensures
        r == duty_of(speed as int),
        MIN_THROTTLE <= r <= MAX_THROTTLE,
{
    let v: i64 = if speed < 0 {
        0
    } else if speed > UNIT as i64 {
        UNIT as i64
    } else {
        speed
    };
    assert(0 <= v * (MAX_THROTTLE - MIN_THROTTLE) / (UNIT as int) <= (MAX_THROTTLE - MIN_THROTTLE))
        by (nonlinear_arith)
        requires
            0 <= v <= UNIT,
    ;
    MIN_THROTTLE + (v * (MAX_THROTTLE - MIN_THROTTLE) as i64 / UNIT as i64) as u16
}

/// Pulse widths for four motor speeds, in motor order.
pub fn duty_cycles(speeds: [i64; 4]) -> (r: [u16; 4])
    ensures
        duty_ints(r@) == duties(ints(speeds@)),
{
    let r = [duty(speeds[0]), duty(speeds[1]), duty(speeds[2]), duty(speeds[3])];
    assert(duty_ints(r@) =~= duties(ints(speeds@)));
    r
}

/// Scales a stick deflection by the manual authority.
pub fn scale_authority(v: i32) -> (r: i64)
    requires
        -UNIT <= v <= UNIT,
    ensures
        r == authority(v as int),
        -MAX_THROTTLE_DIFFERENCE <= r <= MAX_THROTTLE_DIFFERENCE,
{
    let p = v as i64 * MAX_THROTTLE_DIFFERENCE;
    let r = if p >= 0 {
        p / UNIT as i64
    } else {
        -((-p) / UNIT as i64)
    };
    assert(-MAX_THROTTLE_DIFFERENCE <= r <= MAX_THROTTLE_DIFFERENCE) by (nonlinear_arith)
        requires
            -UNIT <= v <= UNIT,
            p == v * MAX_THROTTLE_DIFFERENCE,
            p >= 0 ==> r == (p as int) / (UNIT as int),
            p < 0 ==> r == -((-(p as int)) / (UNIT as int)),
    ;
    r
}

/// Full manual mode: the sticks, scaled by the manual authority, go straight
/// into the mixer, then through the saturation policy.
pub fn full_manual(command: &RadioCommand) -> (r: [u16; 4])
    requires
        command.wf(),
    ensures
        duty_ints(r@) == manual_duties(*command),
{
    let x = scale_authority(command.x_throttle);
    let y = scale_authority(command.y_throttle);
    let z = scale_authority(command.twist_throttle);
    let speeds = mix(command.z_throttle as i64, x, y, z);
    let speeds = unreliable_speeds(speeds);
    duty_cycles(speeds)
}

/// Every motor at no thrust.
pub fn fall_out_of_the_sky() -> (r: [u16; 4])
    ensures
        forall|i: int| 0 <= i < 4 ==> r[i] == MIN_THROTTLE,
{
    [MIN_THROTTLE; 4]
}

} // verus!
