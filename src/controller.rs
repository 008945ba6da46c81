//! Per-axis PD and PID controllers.
//!
//! Gains are in millionths; errors are in the axis' own unit (millidegrees,
//! or millidegrees per second); the time step is in timer ticks of one
//! microsecond; outputs are in per-mille of full motor power.
use vstd::prelude::*;
use crate::arith::{abs, trunc_div};
use crate::mixer::MIX_LIMIT;

verus! {

/// Gains are expressed in units of `1 / GAIN_SCALE`.
pub const GAIN_SCALE: i64 = 1_000_000;

/// Timer ticks in one second.
pub const TICKS_PER_SECOND: i64 = 1_000_000;

/// Largest magnitude of a gain (100.0).
pub const MAX_GAIN: i64 = 100_000_000;

/// Largest magnitude of an error.
pub const MAX_ERROR: i64 = 4_000_000_000;

/// Largest magnitude of an error's rate of change, per second.
pub const MAX_RATE: i64 = 8_000_000_000_000_000;

/// Largest magnitude of a PD output.
pub const PD_LIMIT: i64 = 900_000_000_000_000_000;

/// Largest magnitude of a PID integral, in gain units times error times ticks.
pub const MAX_INTEGRAL: i128 = 100_000_000_000_000_000_000_000_000_000;

/// The rate of change of the error: held from the last step when no time has
/// passed, otherwise the difference over the time step.
pub open spec fn rate_of(error: int, last_error: int, last_rate: int, dt: int) -> int {
    if dt == 0 {
        last_rate
    } else {
        trunc_div((error - last_error) * TICKS_PER_SECOND, dt)
    }
}

/// `k_p * error + k_d * rate`, gains scaled by `GAIN_SCALE`.
pub open spec fn pd_output(k_p: int, k_d: int, error: int, rate: int) -> int {
    trunc_div(k_p * error + k_d * rate, GAIN_SCALE as int)
}

/// The contribution of a PID integral to the output.
pub open spec fn integral_output(integral: int) -> int {
    trunc_div(integral, GAIN_SCALE * TICKS_PER_SECOND)
}

/// A proportional-derivative controller with its memory of the last step.
pub struct PD {
    pub k_p: i64,
    pub k_d: i64,
    pub last_error: i64,
    pub last_v: i64,
}

impl PD {
    pub open spec fn wf(&self) -> bool {
        &&& abs(self.k_p as int) <= MAX_GAIN
        &&& abs(self.k_d as int) <= MAX_GAIN
        &&& abs(self.last_error as int) <= MAX_ERROR
        &&& abs(self.last_v as int) <= MAX_RATE
    }

    pub fn new(k_p: i64, k_d: i64) -> (r: PD)
        requires
            abs(k_p as int) <= MAX_GAIN,
            abs(k_d as int) <= MAX_GAIN,
        ensures
            r.wf(),
            r.k_p == k_p,
            r.k_d == k_d,
            r.last_error == 0,
            r.last_v == 0,
    {
        PD { k_p, k_d, last_error: 0, last_v: 0 }
    }

    /// The controller output for `error` after `dt` ticks.
    pub fn get_next(&mut self, error: i64, dt: u64) -> (r: i64)
        requires
            old(self).wf(),
            abs(error as int) <= MAX_ERROR,
        ensures
            final(self).wf(),
            final(self).k_p == old(self).k_p,
            final(self).k_d == old(self).k_d,
            final(self).last_error == error,
            final(self).last_v == rate_of(
                error as int,
                old(self).last_error as int,
                old(self).last_v as int,
                dt as int,
            ),
            r == pd_output(old(self).k_p as int, old(self).k_d as int, error as int, final(self).last_v as int),
            abs(r as int) <= PD_LIMIT,
    {
        let diff: i64 = error - self.last_error;
        let v: i64 = if dt == 0 {
            self.last_v
        } else {
            let num: i128 = diff as i128 * TICKS_PER_SECOND as i128;
            let den: i128 = dt as i128;
            let q: i128 = if num >= 0 {
                num / den
            } else {
                -((-num) / den)
            };
            proof {
                let a: int = abs(num as int);
                assert(0 <= a / (den as int) <= a) by (nonlinear_arith)
                    requires
                        a >= 0,
                        den >= 1,
                {
                    vstd::arithmetic::div_mod::lemma_div_is_ordered_by_denominator(a, 1, den as int);
                    vstd::arithmetic::div_mod::lemma_div_pos_is_pos(a, den as int);
                }
                assert(abs(num as int) <= MAX_RATE) by (nonlinear_arith)
                    requires
                        num == diff * TICKS_PER_SECOND,
                        abs(diff as int) <= 2 * MAX_ERROR,
                ;
            }
            q as i64
        };
        let kp = self.k_p as i128;
        let kd = self.k_d as i128;
        proof {
            assert(abs(kp * error) <= MAX_GAIN * MAX_ERROR) by (nonlinear_arith)
                requires
                    abs(kp as int) <= MAX_GAIN,
                    abs(error as int) <= MAX_ERROR,
            ;
            assert(abs(kd * v) <= MAX_GAIN * MAX_RATE) by (nonlinear_arith)
                requires
                    abs(kd as int) <= MAX_GAIN,
                    abs(v as int) <= MAX_RATE,
            ;
        }
        let pe: i128 = kp * error as i128;
        let dv: i128 = kd * v as i128;
        let sum: i128 = pe + dv;
        let out: i128 = if sum >= 0 {
            sum / GAIN_SCALE as i128
        } else {
            -((-sum) / GAIN_SCALE as i128)
        };
        proof {
            let a: int = abs(sum as int);
            assert(a / (GAIN_SCALE as int) <= PD_LIMIT) by (nonlinear_arith)
                requires
                    0 <= a <= MAX_GAIN * MAX_ERROR + MAX_GAIN * MAX_RATE,
            ;
            vstd::arithmetic::div_mod::lemma_div_pos_is_pos(a, GAIN_SCALE as int);
        }
        self.last_v = v;
        self.last_error = error;
        out as i64
    }
}

/// A proportional-integral-derivative controller.
pub struct PID {
    pub pd: PD,
    pub k_i: i64,
    pub integral: i128,
}

impl PID {
    pub open spec fn wf(&self) -> bool {
        &&& self.pd.wf()
        &&& abs(self.k_i as int) <= MAX_GAIN
        &&& abs(self.integral as int) <= MAX_INTEGRAL
    }

    pub fn new(k_p: i64, k_i: i64, k_d: i64) -> (r: PID)
        requires
            abs(k_p as int) <= MAX_GAIN,
            abs(k_i as int) <= MAX_GAIN,
            abs(k_d as int) <= MAX_GAIN,
        ensures
            r.wf(),
            r.pd.k_p == k_p,
            r.pd.k_d == k_d,
            r.pd.last_error == 0,
            r.pd.last_v == 0,
            r.k_i == k_i,
            r.integral == 0,
    {
        PID { pd: PD::new(k_p, k_d), k_i, integral: 0 }
    }

    /// The controller output for `error` after `dt` ticks. The integral
    /// grows by `k_i * dt * error`; it must stay within `MAX_INTEGRAL`.
    pub fn get_next(&mut self, error: i64, dt: u64) -> (r: i64)
        requires
            old(self).wf(),
            abs(error as int) <= MAX_ERROR,
            abs(old(self).integral + old(self).k_i * dt * error) <= MAX_INTEGRAL,
        ensures
            final(self).wf(),
            final(self).k_i == old(self).k_i,
            final(self).pd.k_p == old(self).pd.k_p,
            final(self).pd.k_d == old(self).pd.k_d,
            final(self).pd.last_error == error,
            final(self).pd.last_v == rate_of(
                error as int,
                old(self).pd.last_error as int,
                old(self).pd.last_v as int,
                dt as int,
            ),
            final(self).integral == old(self).integral + old(self).k_i * dt * error,
            r == pd_output(old(self).pd.k_p as int, old(self).pd.k_d as int, error as int, final(self).pd.last_v as int)
                + integral_output(final(self).integral as int),
            abs(r as int) <= MIX_LIMIT,
    {
        proof {
            assert(abs(self.k_i * dt) <= MAX_GAIN * 0x1_0000_0000_0000_0000) by (nonlinear_arith)
                requires
                    abs(self.k_i as int) <= MAX_GAIN,
                    0 <= dt < 0x1_0000_0000_0000_0000,
            ;
            assert(abs(self.k_i * dt * error) <= MAX_GAIN * 0x1_0000_0000_0000_0000 * MAX_ERROR) by (nonlinear_arith)
                requires
                    abs(self.k_i * dt) <= MAX_GAIN * 0x1_0000_0000_0000_0000,
                    abs(error as int) <= MAX_ERROR,
            ;
        }
        let kdt: i128 = self.k_i as i128 * dt as i128;
        let step: i128 = kdt * error as i128;
        self.integral = self.integral + step;
        let p = self.pd.get_next(error, dt);
        let scale: i128 = GAIN_SCALE as i128 * TICKS_PER_SECOND as i128;
        let i_term: i128 = if self.integral >= 0 {
            self.integral / scale
        } else {
            -((-self.integral) / scale)
        };
        proof {
            let a: int = abs(self.integral as int);
            assert(a / (scale as int) <= MIX_LIMIT - PD_LIMIT) by (nonlinear_arith)
                requires
                    0 <= a <= MAX_INTEGRAL,
                    scale == GAIN_SCALE * TICKS_PER_SECOND,
            ;
            vstd::arithmetic::div_mod::lemma_div_pos_is_pos(a, scale as int);
        }
        p + i_term as i64
    }
}

} // verus!
