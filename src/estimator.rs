//! Tilt estimation by a complementary filter.
//!
//! The gyroscope rate is integrated into the last estimate; the tilt that the
//! accelerometer alone indicates (the arctangent of the gravity components,
//! computed by the caller) is blended in with a fixed weight whenever the
//! accelerometer can be trusted. Angles are in millidegrees and kept in
//! `[-180000, 180000]`.
use vstd::prelude::*;
use crate::arith::{abs, trunc_div};
use crate::controller::TICKS_PER_SECOND;
use crate::radio::UNIT;
use crate::vector3::Vector3;

verus! {

/// Half a turn, in millidegrees.
pub const HALF_TURN: i64 = 180_000;

/// A full turn, in millidegrees.
pub const FULL_TURN: i64 = 360_000;

/// Largest nominal gravity or gravity tolerance, in milli-g.
pub const MAX_GRAVITY: i64 = 0x1_0000_0000;

/// Tuning of the tilt filters: weight of the accelerometer estimate
/// (per-mille), accepted deviation of the measured force from gravity
/// (milli-g), and accepted disagreement between the two estimates
/// (millidegrees).
pub const A_WEIGHT: i64 = 20;
pub const GRAVITY_TOLERANCE: i64 = 150;
pub const MAX_DISAGREEMENT: i64 = 10_000;

/// An angle brought into `[-180000, 180000)` by whole turns.
pub open spec fn wrap_angle(a: int) -> int {
    (a + HALF_TURN) % (FULL_TURN as int) - HALF_TURN
}

/// The estimate carried forward by the gyroscope alone.
pub open spec fn gyro_angle(angle: int, rate: int, dt: int) -> int {
    wrap_angle(angle + trunc_div(rate * dt, TICKS_PER_SECOND as int))
}

pub open spec fn magnitude_squared(v: Vector3<i32>) -> int {
    v.x * v.x + v.y * v.y + v.z * v.z
}

/// The measured specific force is within `tolerance` of nominal gravity:
/// `| |v| - gravity | <= tolerance`, stated over squares.
pub open spec fn gravity_plausible(v: Vector3<i32>, gravity: int, tolerance: int) -> bool {
    &&& magnitude_squared(v) <= (gravity + tolerance) * (gravity + tolerance)
    &&& (gravity - tolerance <= 0 || (gravity - tolerance) * (gravity - tolerance) <= magnitude_squared(v))
}

/// Weighted blend of the accelerometer and gyroscope estimates.
pub open spec fn blend(a_weight: int, acc_angle: int, gyro: int) -> int {
    trunc_div(a_weight * acc_angle + (UNIT - a_weight) * gyro, UNIT as int)
}

/// A single-axis complementary filter.
#[derive(Clone, Copy, Debug, PartialEq, Eq)]
pub struct ComplementaryFilter {
    /// The current estimate.
    pub angle: i64,
    /// Weight of the accelerometer estimate, per-mille.
    pub a_weight: i64,
    /// Nominal gravity, milli-g.
    pub gravity: i64,
    /// Largest accepted deviation of the measured force from gravity, milli-g.
    pub gravity_tolerance: i64,
    /// Largest accepted disagreement between the two estimates, millidegrees.
    pub max_disagreement: i64,
}

impl ComplementaryFilter {
    pub open spec fn wf(&self) -> bool {
        &&& -HALF_TURN <= self.angle <= HALF_TURN
        &&& 0 <= self.a_weight <= UNIT
        &&& 0 <= self.gravity <= MAX_GRAVITY
        &&& 0 <= self.gravity_tolerance <= MAX_GRAVITY
        &&& 0 <= self.max_disagreement
    }

    /// Whether the accelerometer estimate is blended in: the z-axis reading
    /// is not zero, the measured force is plausible as gravity, and the two
    /// estimates agree closely enough.
    pub open spec fn trusts(&self, acc: Vector3<i32>, acc_angle: int, gyro: int) -> bool {
        &&& acc.z != 0
        &&& gravity_plausible(acc, self.gravity as int, self.gravity_tolerance as int)
        &&& abs(acc_angle - gyro) <= self.max_disagreement
    }

    /// The estimate after one step.
    pub open spec fn next_angle(&self, acc: Vector3<i32>, acc_angle: int, rate: int, dt: int) -> int {
        let g = gyro_angle(self.angle as int, rate, dt);
        if self.trusts(acc, acc_angle, g) {
            blend(self.a_weight as int, acc_angle, g)
        } else {
            g
        }
    }

    pub open spec fn with_angle(self, angle: int) -> ComplementaryFilter {
        ComplementaryFilter { angle: angle as i64, ..self }
    }

    pub fn new(
        angle: i64,
        a_weight: i64,
        gravity: i64,
        gravity_tolerance: i64,
        max_disagreement: i64,
    ) -> (r: ComplementaryFilter)
        requires
            -HALF_TURN <= angle <= HALF_TURN,
            0 <= a_weight <= UNIT,
            0 <= gravity <= MAX_GRAVITY,
            0 <= gravity_tolerance <= MAX_GRAVITY,
            0 <= max_disagreement,
        ensures
            r.wf(),
            r == (ComplementaryFilter { angle, a_weight, gravity, gravity_tolerance, max_disagreement }),
    {
        ComplementaryFilter { angle, a_weight, gravity, gravity_tolerance, max_disagreement }
    }

    /// Takes in one sample: the accelerometer reading, the tilt it indicates,
    /// the gyroscope rate about the filter's axis (millidegrees per second),
    /// and the ticks since the last sample. Returns the new estimate.
    pub fn push(&mut self, acceleration: Vector3<i32>, acc_angle: i64, rate: i32, dt: u64) -> (r: i64)
        requires
            old(self).wf(),
            -HALF_TURN <= acc_angle <= HALF_TURN,
        ensures
            final(self).wf(),
            *final(self) == old(self).with_angle(r as int),
            r == old(self).next_angle(acceleration, acc_angle as int, rate as int, dt as int),
            acceleration.z == 0 ==> r == gyro_angle(old(self).angle as int, rate as int, dt as int),
    {
        let g = integrate(self.angle, rate, dt);
        let trusted = acceleration.z != 0 && plausible_gravity(
            acceleration,
            self.gravity,
            self.gravity_tolerance,
        ) && {
            let d = acc_angle - g;
            -self.max_disagreement <= d && d <= self.max_disagreement
        };
        let next: i64 = if trusted {
            let w = self.a_weight;
            assert(abs(w * acc_angle) <= UNIT * HALF_TURN && abs((UNIT - w) * g) <= UNIT * HALF_TURN)
                by (nonlinear_arith)
                requires
                    0 <= w <= UNIT,
                    -HALF_TURN <= acc_angle <= HALF_TURN,
                    -HALF_TURN <= g <= HALF_TURN,
            ;
            let s = w * acc_angle + (UNIT as i64 - w) * g;
            assert(abs(s as int) <= UNIT * HALF_TURN) by (nonlinear_arith)
                requires
                    0 <= w <= UNIT,
                    -HALF_TURN <= acc_angle <= HALF_TURN,
                    -HALF_TURN <= g <= HALF_TURN,
                    s == w * acc_angle + (UNIT - w) * g,
            ;
            let q = if s >= 0 {
                s / UNIT as i64
            } else {
                -((-s) / UNIT as i64)
            };
            assert(-HALF_TURN <= q <= HALF_TURN) by (nonlinear_arith)
                requires
                    abs(s as int) <= UNIT * HALF_TURN,
                    s >= 0 ==> q == (s as int) / (UNIT as int),
                    s < 0 ==> q == -((-(s as int)) / (UNIT as int)),
            ;
            q
        } else {
            g
        };
        self.angle = next;
        next
    }
}

/// Whether a reading is plausible as gravity, tested over squares.
pub fn plausible_gravity(v: Vector3<i32>, gravity: i64, tolerance: i64) -> (r: bool)
    requires
        0 <= gravity <= MAX_GRAVITY,
        0 <= tolerance <= MAX_GRAVITY,
    ensures
        r == gravity_plausible(v, gravity as int, tolerance as int),
{
    let x = v.x as i128;
    let y = v.y as i128;
    let z = v.z as i128;
    assert(0 <= x * x <= 0x4000_0000_0000_0000) by (nonlinear_arith)
        requires
            -0x8000_0000 <= x <= 0x7fff_ffff,
    ;
    assert(0 <= y * y <= 0x4000_0000_0000_0000) by (nonlinear_arith)
        requires
            -0x8000_0000 <= y <= 0x7fff_ffff,
    ;
    assert(0 <= z * z <= 0x4000_0000_0000_0000) by (nonlinear_arith)
        requires
            -0x8000_0000 <= z <= 0x7fff_ffff,
    ;
    let m = x * x + y * y + z * z;
    let hi = (gravity + tolerance) as i128;
    let lo = (gravity - tolerance) as i128;
    assert(0 <= hi * hi <= 4 * MAX_GRAVITY * MAX_GRAVITY) by (nonlinear_arith)
        requires
            0 <= hi <= 2 * MAX_GRAVITY,
    ;
    assert(lo > 0 ==> 0 <= lo * lo <= MAX_GRAVITY * MAX_GRAVITY) by (nonlinear_arith)
        requires
            lo <= MAX_GRAVITY,
    ;
    m <= hi * hi && (lo <= 0 || lo * lo <= m)
}

/// Carries an angle forward by `rate` over `dt` ticks, wrapped into
/// `[-180000, 180000)`.
pub fn integrate(angle: i64, rate: i32, dt: u64) -> (r: i64)
    ensures
        r == gyro_angle(angle as int, rate as int, dt as int),
        -HALF_TURN <= r < HALF_TURN,
{
    assert(abs(rate * dt) <= 0x8000_0000 * 0x1_0000_0000_0000_0000) by (nonlinear_arith)
        requires
            -0x8000_0000 <= rate <= 0x7fff_ffff,
            0 <= dt <= 0xffff_ffff_ffff_ffff,
    ;
    let p: i128 = rate as i128 * dt as i128;
    let step: i128 = if p >= 0 {
        p / TICKS_PER_SECOND as i128
    } else {
        -((-p) / TICKS_PER_SECOND as i128)
    };
    assert(abs(step as int) <= abs(p as int)) by (nonlinear_arith)
        requires
            p >= 0 ==> step == (p as int) / (TICKS_PER_SECOND as int),
            p < 0 ==> step == -((-(p as int)) / (TICKS_PER_SECOND as int)),
    ;
    assert(abs(p as int) <= 0x8000_0000 * 0x1_0000_0000_0000_0000) by (nonlinear_arith)
        requires
            -0x8000_0000 <= rate <= 0x7fff_ffff,
            0 <= dt <= 0xffff_ffff_ffff_ffff,
            p == rate * dt,
    ;
    let s: i128 = angle as i128 + step + HALF_TURN as i128;
    let f: i128 = FULL_TURN as i128;
    let m: i128 = if s >= 0 {
        s % f
    } else {
        let k = (-s) % f;
        if k == 0 {
            0
        } else {
            f - k
        }
    };
    proof {
        if s < 0 {
            let k: int = (-(s as int)) % (f as int);
            let q: int = (-(s as int)) / (f as int);
            vstd::arithmetic::div_mod::lemma_fundamental_div_mod(-(s as int), f as int);
            if k == 0 {
                assert(s == (-q) * f + 0) by (nonlinear_arith)
                    requires
                        -s == f * q + k,
                        k == 0,
                ;
                vstd::arithmetic::div_mod::lemma_fundamental_div_mod_converse(s as int, f as int, -q, 0);
            } else {
                assert(s == (-q - 1) * f + (f - k)) by (nonlinear_arith)
                    requires
                        -s == f * q + k,
                ;
                vstd::arithmetic::div_mod::lemma_fundamental_div_mod_converse(s as int, f as int, -q - 1, f - k);
            }
        }
    }
    (m - HALF_TURN as i128) as i64
}

/// Applies `n` steps of constant input to a filter.
pub open spec fn settle(
    f: ComplementaryFilter,
    acc: Vector3<i32>,
    acc_angle: int,
    rate: int,
    dt: int,
    n: nat,
) -> int
    decreases n,
{
    if n == 0 {
        f.angle as int
    } else {
        let a = settle(f, acc, acc_angle, rate, dt, (n - 1) as nat);
        f.with_angle(a).next_angle(acc, acc_angle, rate, dt)
    }
}

/// The distance from the true angle within which a filter settles, for an
/// accelerometer weight `w` and a per-step gyroscope drift `d`.
pub open spec fn tolerance(w: int, d: int) -> int {
    ((UNIT - w) * abs(d) + UNIT) / w + 1
}

/// One blended step brings the error from `e` to at most the larger of
/// `e - 1` and the tolerance.
proof fn lemma_blend_step(w: int, a: int, e: int, d: int)
    requires
        0 < w <= UNIT,
    ensures
        abs(blend(w, a, a + e + d) - a) <= if abs(e) > tolerance(w, d) {
            abs(e) - 1
        } else {
            tolerance(w, d)
        },
{
    let t = tolerance(w, d);
    let x = (UNIT - w) * (e + d);
    let y = w * a + (UNIT - w) * (a + e + d);
    assert(y == UNIT * a + x) by (nonlinear_arith)
        requires
            x == (UNIT - w) * (e + d),
            y == w * a + (UNIT - w) * (a + e + d),
    ;
    let b = blend(w, a, a + e + d);
    assert(UNIT * abs(b - a) < abs(x) + UNIT) by (nonlinear_arith)
        requires
            y == UNIT * a + x,
            y >= 0 ==> b == y / (UNIT as int),
            y < 0 ==> b == -((-y) / (UNIT as int)),
    ;
    assert(abs(x) <= (UNIT - w) * (abs(e) + abs(d))) by (nonlinear_arith)
        requires
            x == (UNIT - w) * (e + d),
            0 < w <= UNIT,
    ;
    assert(w * t >= (UNIT - w) * abs(d) + UNIT) by (nonlinear_arith)
        requires
            t == ((UNIT - w) * abs(d) + UNIT) / w + 1,
            0 < w,
            (UNIT - w) * abs(d) + UNIT >= 0,
    ;
    if abs(e) > t {
        assert(abs(b - a) < abs(e)) by (nonlinear_arith)
            requires
                UNIT * abs(b - a) < abs(x) + UNIT,
                abs(x) <= (UNIT - w) * (abs(e) + abs(d)),
                w * t >= (UNIT - w) * abs(d) + UNIT,
                abs(e) > t,
                0 < w <= UNIT,
        ;
    } else {
        assert(abs(b - a) < t) by (nonlinear_arith)
            requires
                UNIT * abs(b - a) < abs(x) + UNIT,
                abs(x) <= (UNIT - w) * (abs(e) + abs(d)),
                w * t >= (UNIT - w) * abs(d) + UNIT,
                abs(e) <= t,
                0 < w <= UNIT,
        ;
    }
}

/// Convergence under a constant gyroscope bias: with a steady accelerometer
/// reading that indicates the true angle `acc_angle` and that the filter
/// trusts, a filter fed `n` identical samples is within
/// `max(tolerance, e0 - n)` of the true angle, where `e0` is its starting
/// error and the tolerance depends only on the accelerometer weight and the
/// per-step drift `d` of the biased gyroscope. Hence after `e0` steps it is
/// within the tolerance, and stays there.
pub proof fn lemma_settles(
    f: ComplementaryFilter,
    acc: Vector3<i32>,
    acc_angle: int,
    rate: int,
    dt: int,
    n: nat,
)
    requires
        f.wf(),
        f.a_weight > 0,
        acc.z != 0,
        gravity_plausible(acc, f.gravity as int, f.gravity_tolerance as int),
        ({
            let d = trunc_div(rate * dt, TICKS_PER_SECOND as int);
            let e0 = abs(f.angle - acc_angle);
            let reach = if e0 > tolerance(f.a_weight as int, d) {
                e0
            } else {
                tolerance(f.a_weight as int, d)
            };
            &&& reach + abs(d) <= f.max_disagreement
            &&& abs(acc_angle) + reach + abs(d) < HALF_TURN
        }),
    ensures
        ({
            let d = trunc_div(rate * dt, TICKS_PER_SECOND as int);
            let e0 = abs(f.angle - acc_angle);
            let t = tolerance(f.a_weight as int, d);
            let e = abs(settle(f, acc, acc_angle, rate, dt, n) - acc_angle);
            &&& e <= t || e <= e0 - n
            &&& e <= if e0 > t { e0 } else { t }
        }),
    decreases n,
{
    let d = trunc_div(rate * dt, TICKS_PER_SECOND as int);
    let w = f.a_weight as int;
    let t = tolerance(w, d);
    if n > 0 {
        lemma_settles(f, acc, acc_angle, rate, dt, (n - 1) as nat);
        let prev = settle(f, acc, acc_angle, rate, dt, (n - 1) as nat);
        let e = prev - acc_angle;
        let sum = prev + d;
        assert(-HALF_TURN <= sum + HALF_TURN < FULL_TURN);
        vstd::arithmetic::div_mod::lemma_small_mod((sum + HALF_TURN) as nat, FULL_TURN as nat);
        assert(gyro_angle(prev, rate, dt) == acc_angle + e + d);
        let g = f.with_angle(prev);
        assert(g.trusts(acc, acc_angle, acc_angle + e + d));
        lemma_blend_step(w, acc_angle, e, d);
    }
}

} // verus!
