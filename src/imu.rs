//! Conversion of raw inertial sensor registers into physical units, and the
//! configuration bytes that select the sensor's ranges.
//!
//! Each axis is a big-endian two's-complement 16-bit count; full scale
//! (32768 counts) is the selected range. Accelerations come out in milli-g,
//! angular rates in millidegrees per second.
use vstd::prelude::*;
use crate::arith::trunc_div;
use crate::vector3::Vector3;

verus! {

/// Counts in full scale.
pub const FULL_SCALE_COUNTS: i64 = 32768;

/// The bank-select register holds the bank number in bits 5:4.
pub const BANK_STEP: u8 = 16;

/// Highest register bank.
pub const MAX_BANK: u8 = 3;

/// Accelerometer full-scale range.
#[allow(non_camel_case_types)]
#[derive(Clone, Copy, Debug, PartialEq, Eq)]
pub enum AccelerometerSetting {
    r2g,
    r4g,
    r8g,
    r16g,
}

/// Gyroscope full-scale range.
#[allow(non_camel_case_types)]
#[derive(Clone, Copy, Debug, PartialEq, Eq)]
pub enum GyroSetting {
    r250dps,
    r500dps,
    r1000dps,
    r2000dps,
}

/// The two-bit code that selects a range in the configuration register.
pub open spec fn acc_code(s: AccelerometerSetting) -> u8 {
    match s {
        AccelerometerSetting::r2g => 0,
        AccelerometerSetting::r4g => 1,
        AccelerometerSetting::r8g => 2,
        AccelerometerSetting::r16g => 3,
    }
}

pub open spec fn gyro_code(s: GyroSetting) -> u8 {
    match s {
        GyroSetting::r250dps => 0,
        GyroSetting::r500dps => 1,
        GyroSetting::r1000dps => 2,
        GyroSetting::r2000dps => 3,
    }
}

/// Milli-g in full scale.
pub open spec fn acc_mult(s: AccelerometerSetting) -> int {
    match s {
        AccelerometerSetting::r2g => 2000,
        AccelerometerSetting::r4g => 4000,
        AccelerometerSetting::r8g => 8000,
        AccelerometerSetting::r16g => 16000,
    }
}

/// Millidegrees per second in full scale.
pub open spec fn gyro_mult(s: GyroSetting) -> int {
    match s {
        GyroSetting::r250dps => 250_000,
        GyroSetting::r500dps => 500_000,
        GyroSetting::r1000dps => 1_000_000,
        GyroSetting::r2000dps => 2_000_000,
    }
}

impl AccelerometerSetting {
    /// The physical value of full scale, in milli-g: one count is
    /// `get_mult() / 32768` milli-g.
    pub fn get_mult(&self) -> (r: i32)
        ensures
            r == acc_mult(*self),
    {
        match self {
            AccelerometerSetting::r2g => 2000,
            AccelerometerSetting::r4g => 4000,
            AccelerometerSetting::r8g => 8000,
            AccelerometerSetting::r16g => 16000,
        }
    }

    pub fn code(&self) -> (r: u8)
        ensures
            r == acc_code(*self),
    {
        match self {
            AccelerometerSetting::r2g => 0,
            AccelerometerSetting::r4g => 1,
            AccelerometerSetting::r8g => 2,
            AccelerometerSetting::r16g => 3,
        }
    }
}

impl GyroSetting {
    /// The physical value of full scale, in millidegrees per second: one
    /// count is `get_mult() / 32768` of it.
    pub fn get_mult(&self) -> (r: i32)
        ensures
            r == gyro_mult(*self),
    {
        match self {
            GyroSetting::r250dps => 250_000,
            GyroSetting::r500dps => 500_000,
            GyroSetting::r1000dps => 1_000_000,
            GyroSetting::r2000dps => 2_000_000,
        }
    }

    pub fn code(&self) -> (r: u8)
        ensures
            r == gyro_code(*self),
    {
        match self {
            GyroSetting::r250dps => 0,
            GyroSetting::r500dps => 1,
            GyroSetting::r1000dps => 2,
            GyroSetting::r2000dps => 3,
        }
    }
}

/// The gyroscope configuration byte: 375 Hz noise bandwidth, low-pass filter
/// on, and the range code in bits 2:1.
pub fn gyro_config(setting: &GyroSetting) -> (r: u8)
    ensures
        r == (0b0011_1001u8 | (gyro_code(*setting) << 1u8)),
{
    0b0011_1001u8 | (setting.code() << 1u8)
}

/// The accelerometer configuration byte: 69 Hz noise bandwidth, low-pass
/// filter on, and the range code in bits 2:1.
pub fn acc_config(setting: &AccelerometerSetting) -> (r: u8)
    ensures
        r == (0b0001_1001u8 | (acc_code(*setting) << 1u8)),
{
    0b0001_1001u8 | (setting.code() << 1u8)
}

/// The bank-select register value for `bank`, or `None` for a bank that does
/// not exist.
pub fn bank_select(bank: u8) -> (r: Option<u8>)
    ensures
        r is Some <==> bank <= MAX_BANK,
        r is Some ==> r->0 == bank * BANK_STEP,
{
    if bank > MAX_BANK {
        None
    } else {
        Some(bank * BANK_STEP)
    }
}

/// A 16-bit two's-complement count, high byte first.
pub open spec fn be_count(hi: u8, lo: u8) -> int {
    let u = hi * 256 + lo;
    if u >= 32768 {
        u - 65536
    } else {
        u
    }
}

/// Reads a 16-bit two's-complement count, high byte first.
pub fn count_from_be_bytes(hi: u8, lo: u8) -> (r: i32)
    ensures
        r == be_count(hi, lo),
        -32768 <= r < 32768,
{
    let u: i32 = hi as i32 * 256 + lo as i32;
    if u >= 32768 {
        u - 65536
    } else {
        u
    }
}

/// A count in physical units, for a full scale of `mult`.
pub open spec fn scaled(count: int, mult: int) -> int {
    trunc_div(count * mult, FULL_SCALE_COUNTS as int)
}

pub fn scale_count(count: i32, mult: i32) -> (r: i32)
    requires
        -32768 <= count < 32768,
        0 < mult <= 2_000_000,
    ensures
        r == scaled(count as int, mult as int),
{
    assert(-32768 * 2_000_000 <= count * mult <= 32768 * 2_000_000) by (nonlinear_arith)
        requires
            -32768 <= count < 32768,
            0 < mult <= 2_000_000,
    ;
    let p: i64 = count as i64 * mult as i64;
    let q: i64 = if p >= 0 {
        p / FULL_SCALE_COUNTS
    } else {
        -((-p) / FULL_SCALE_COUNTS)
    };
    assert(-2_000_000 <= q <= 2_000_000) by (nonlinear_arith)
        requires
            -32768 <= count < 32768,
            0 < mult <= 2_000_000,
            p == count * mult,
            p >= 0 ==> q == (p as int) / (FULL_SCALE_COUNTS as int),
            p < 0 ==> q == -((-(p as int)) / (FULL_SCALE_COUNTS as int)),
    ;
    q as i32
}

/// Three axes of counts in physical units.
pub open spec fn scaled_axes(raw: Seq<u8>, mult: int) -> Vector3<i32> {
    Vector3 {
        x: scaled(be_count(raw[0], raw[1]), mult) as i32,
        y: scaled(be_count(raw[2], raw[3]), mult) as i32,
        z: scaled(be_count(raw[4], raw[5]), mult) as i32,
    }
}

fn scale_axes(raw: &[u8; 6], mult: i32) -> (r: Vector3<i32>)
    requires
        0 < mult <= 2_000_000,
    ensures
        r == scaled_axes(raw@, mult as int),
{
    Vector3 {
        x: scale_count(count_from_be_bytes(raw[0], raw[1]), mult),
        y: scale_count(count_from_be_bytes(raw[2], raw[3]), mult),
        z: scale_count(count_from_be_bytes(raw[4], raw[5]), mult),
    }
}

/// The acceleration held in the six accelerometer output registers, milli-g.
pub fn get_acc(raw_acc: &[u8; 6], setting: &AccelerometerSetting) -> (r: Vector3<i32>)
    ensures
        r == scaled_axes(raw_acc@, acc_mult(*setting)),
{
    scale_axes(raw_acc, setting.get_mult())
}

/// The angular velocity held in the six gyroscope output registers,
/// millidegrees per second.
pub fn get_gyr(raw_gyr: &[u8; 6], setting: &GyroSetting) -> (r: Vector3<i32>)
    ensures
        r == scaled_axes(raw_gyr@, gyro_mult(*setting)),
{
    scale_axes(raw_gyr, setting.get_mult())
}

} // verus!
