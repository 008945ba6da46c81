use drone::calibration::{cartesian_to_polar_magnitude, isqrt, GravityCalibration};
use drone::imu::{
    acc_config, bank_select, count_from_be_bytes, get_acc, get_gyr, gyro_config,
    AccelerometerSetting, GyroSetting,
};
use drone::peak::MaxOverN;
use drone::vector3::Vector3;

#[test]
fn counts_are_big_endian_twos_complement() {
    assert_eq!(count_from_be_bytes(0x40, 0x00), 16384);
    assert_eq!(count_from_be_bytes(0xC0, 0x00), -16384);
    assert_eq!(count_from_be_bytes(0xFF, 0xFF), -1);
    assert_eq!(count_from_be_bytes(0x80, 0x00), -32768);
    assert_eq!(count_from_be_bytes(0x01, 0x02), 258);
}

#[test]
fn acceleration_in_milli_g() {
    let raw = [0x40, 0x00, 0xC0, 0x00, 0x00, 0x00];
    assert_eq!(get_acc(&raw, &AccelerometerSetting::r2g), Vector3::new(1000, -1000, 0));
    assert_eq!(get_acc(&raw, &AccelerometerSetting::r16g), Vector3::new(8000, -8000, 0));
    assert_eq!(AccelerometerSetting::r4g.get_mult(), 4000);
}

#[test]
fn angular_velocity_in_millidegrees() {
    let raw = [0x7F, 0xFF, 0x80, 0x00, 0x00, 0x01];
    assert_eq!(get_gyr(&raw, &GyroSetting::r250dps), Vector3::new(249_992, -250_000, 7));
    assert_eq!(GyroSetting::r2000dps.get_mult(), 2_000_000);
}

#[test]
fn configuration_bytes() {
    assert_eq!(gyro_config(&GyroSetting::r250dps), 0x39);
    assert_eq!(gyro_config(&GyroSetting::r2000dps), 0x3F);
    assert_eq!(acc_config(&AccelerometerSetting::r2g), 0x19);
    assert_eq!(acc_config(&AccelerometerSetting::r8g), 0x1D);
}

#[test]
fn bank_selection() {
    assert_eq!(bank_select(0), Some(0x00));
    assert_eq!(bank_select(2), Some(0x20));
    assert_eq!(bank_select(3), Some(0x30));
    assert_eq!(bank_select(4), None);
}

#[test]
fn integer_square_root() {
    assert_eq!(isqrt(0), 0);
    assert_eq!(isqrt(15), 3);
    assert_eq!(isqrt(16), 4);
    assert_eq!(isqrt(u64::MAX), 0xFFFF_FFFF);
}

#[test]
fn vector_magnitude() {
    assert_eq!(cartesian_to_polar_magnitude(Vector3::new(3, -4, 0)), 5);
    assert_eq!(cartesian_to_polar_magnitude(Vector3::new(0, 0, -1000)), 1000);
    assert_eq!(cartesian_to_polar_magnitude(Vector3::new(i32::MIN, i32::MIN, i32::MIN)), 3_719_550_786);
}

#[test]
fn gravity_is_mean_magnitude() {
    let mut cal = GravityCalibration::new();
    assert_eq!(cal.gravity(), None);
    cal.push(Vector3::new(0, 0, 990));
    cal.push(Vector3::new(600, 0, 800));
    cal.push(Vector3::new(0, 0, -1013));
    assert_eq!(cal.gravity(), Some(1001));
}

#[test]
fn vector_from_array_and_sum() {
    let v = Vector3::from(&[1i64, 2, 3]);
    assert_eq!(v, Vector3::new(1, 2, 3));
    assert_eq!(v.add(Vector3::new(10, 20, 30)), Vector3::new(11, 22, 33));
}

#[test]
fn rolling_maximum() {
    let mut m: MaxOverN<3> = MaxOverN::new();
    assert_eq!(m.get(-5), 0);
    assert_eq!(m.get(7), 7);
    assert_eq!(m.get(2), 7);
    assert_eq!(m.get(1), 7);
    assert_eq!(m.get(-1), 2);
    assert_eq!(m.get(-3), 1);
    assert_eq!(m.get(-4), -1);
}
