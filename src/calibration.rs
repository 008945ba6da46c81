//! Magnitudes of vectors and the estimate of nominal gravity taken at boot.
use vstd::prelude::*;
use crate::estimator::{magnitude_squared, MAX_GRAVITY};
use crate::vector3::Vector3;

verus! {

/// Number of samples averaged for the gravity estimate.
pub const CAL_LENGTH: u32 = 1000;

/// Largest magnitude of a vector of `i32` components is below this.
pub const MAGNITUDE_BOUND: u64 = 0x1_0000_0000;

/// `r` is the integer square root of `n`: the largest `r` with `r * r <= n`.
pub open spec fn is_sqrt(n: int, r: int) -> bool {
    0 <= r && r * r <= n < (r + 1) * (r + 1)
}

/// The integer square root: the largest `r` with `r * r <= n`.
pub fn isqrt(n: u64) -> (r: u64)
    ensures
        is_sqrt(n as int, r as int),
        r < MAGNITUDE_BOUND,
{
    let mut lo: u64 = 0;
    let mut hi: u64 = MAGNITUDE_BOUND;
    while hi - lo > 1
        invariant
            lo < hi <= MAGNITUDE_BOUND,
            lo * lo <= n,
            n < hi * hi,
        decreases hi - lo,
    {
        let mid: u64 = lo + (hi - lo) / 2;
        assert(mid * mid < 0x1_0000_0000_0000_0000) by (nonlinear_arith)
            requires
                mid < 0x1_0000_0000,
        ;
        if mid * mid <= n {
            lo = mid;
        } else {
            hi = mid;
        }
    }
    lo
}

/// The length of a vector, rounded down to a whole number.
pub fn cartesian_to_polar_magnitude(v: Vector3<i32>) -> (r: u64)
    ensures
        is_sqrt(magnitude_squared(v), r as int),
        r < MAGNITUDE_BOUND,
{
    let x = v.x as i64;
    let y = v.y as i64;
    let z = v.z as i64;
    assert(0 <= x * x <= 0x4000_0000_0000_0000) by (nonlinear_arith)
        requires
            -0x8000_0000 <= x <= 0x7fff_ffff,
    ;
    assert(0 <= y * y <= 0x4000_0000_0000_0000) by (nonlinear_arith)
        requires
            -0x8000_0000 <= y <= 0x7fff_ffff,
    ;
    assert(0 <= z * z <= 0x4000_0000_0000_0000) by (nonlinear_arith)
        requires
            -0x8000_0000 <= z <= 0x7fff_ffff,
    ;
    let m: u64 = (x * x) as u64 + (y * y) as u64 + (z * z) as u64;
    isqrt(m)
}

/// Running mean of the magnitude of the accelerometer readings taken while
/// the vehicle stands still.
pub struct GravityCalibration {
    pub sum: u64,
    pub count: u32,
}

impl GravityCalibration {
    pub open spec fn wf(&self) -> bool {
        self.sum <= self.count * (MAGNITUDE_BOUND - 1)
    }

    pub fn new() -> (r: GravityCalibration)
        ensures
            r.wf(),
            r.sum == 0,
            r.count == 0,
    {
        GravityCalibration { sum: 0, count: 0 }
    }

    /// Adds the magnitude of one reading.
    pub fn push(&mut self, acceleration: Vector3<i32>)
        requires
            old(self).wf(),
            old(self).count < u32::MAX,
        ensures
            final(self).wf(),
            final(self).count == old(self).count + 1,
            exists|m: int|
                is_sqrt(magnitude_squared(acceleration), m) && final(self).sum == old(self).sum + m,
    {
        let m = cartesian_to_polar_magnitude(acceleration);
        assert(self.sum + m <= (self.count + 1) * (MAGNITUDE_BOUND - 1)) by (nonlinear_arith)
            requires
                self.sum <= self.count * (MAGNITUDE_BOUND - 1),
                m <= MAGNITUDE_BOUND - 1,
        ;
        assert((self.count + 1) * (MAGNITUDE_BOUND - 1) < 0x1_0000_0000_0000_0000) by (nonlinear_arith)
            requires
                self.count < 0xffff_ffff,
        ;
        self.sum = self.sum + m;
        self.count = self.count + 1;
    }

    /// The mean magnitude, in the readings' unit; `None` before any reading.
    pub fn gravity(&self) -> (r: Option<i64>)
        requires
            self.wf(),
        ensures
            r is Some <==> self.count > 0,
            r is Some ==> r->0 == (self.sum as int) / (self.count as int) && 0 <= r->0 <= MAX_GRAVITY,
    {
        if self.count == 0 {
            return None;
        }
        let g = self.sum / self.count as u64;
        assert(g <= MAGNITUDE_BOUND - 1) by (nonlinear_arith)
            requires
                self.sum <= self.count * (MAGNITUDE_BOUND - 1),
                self.count > 0,
                g == (self.sum as int) / (self.count as int),
        ;
        Some(g as i64)
    }
}

} // verus!
