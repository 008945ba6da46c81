use drone::radio::{checksum_matches, normalize_channel, Radio, RadioError};

fn frame_with(channels: [u16; 6]) -> [u8; 31] {
    let mut f = [0u8; 31];
    f[0] = 0x40;
    for k in 0..14 {
        let v: u16 = if k < 6 { channels[k] } else { 1500 };
        f[2 * k + 1] = (v & 0xff) as u8;
        f[2 * k + 2] = (v >> 8) as u8;
    }
    let mut sum: u16 = 0;
    for b in &f[0..29] {
        sum += *b as u16;
    }
    let c = 0xFFDFu16 - sum;
    f[29] = (c & 0xff) as u8;
    f[30] = (c >> 8) as u8;
    f
}

#[test]
fn channel_below_range_reads_zero() {
    assert_eq!(normalize_channel(0), 0);
    assert_eq!(normalize_channel(999), 0);
}

#[test]
fn channel_above_range_reads_full() {
    assert_eq!(normalize_channel(2001), 1000);
    assert_eq!(normalize_channel(u16::MAX), 1000);
}

#[test]
fn channel_boundaries_scale_linearly() {
    assert_eq!(normalize_channel(1000), 0);
    assert_eq!(normalize_channel(1250), 250);
    assert_eq!(normalize_channel(1500), 500);
    assert_eq!(normalize_channel(2000), 1000);
}

#[test]
fn throttle_above_detent_snaps_to_full() {
    let mut radio = Radio::new();
    assert!(radio.read(&frame_with([1500, 1500, 1960, 1500, 1500, 1500])).is_ok());
    assert_eq!(radio.get_command().z_throttle, 1000);
    assert!(radio.read(&frame_with([1500, 1500, 1951, 1500, 1500, 1500])).is_ok());
    assert_eq!(radio.get_command().z_throttle, 1000);
    assert!(radio.read(&frame_with([1500, 1500, 1950, 1500, 1500, 1500])).is_ok());
    assert_eq!(radio.get_command().z_throttle, 950);
}

#[test]
fn command_decodes_every_channel() {
    let mut radio = Radio::new();
    assert_eq!(radio.read(&frame_with([2000, 1000, 1300, 1500, 1500, 1750])), Ok(()));
    let c = radio.get_command();
    assert_eq!(c.x_throttle, 1000);
    assert_eq!(c.y_throttle, -1000);
    assert_eq!(c.z_throttle, 300);
    assert_eq!(c.twist_throttle, 0);
    assert_eq!(c.mode_select, 1);
    assert_eq!(c.aux, 750);
}

#[test]
fn mode_selector_rounds_down() {
    let mut radio = Radio::new();
    for (raw, mode) in [(1000u16, 0u8), (1499, 0), (1500, 1), (1999, 1), (2000, 2)] {
        assert!(radio.read(&frame_with([1500, 1500, 1000, 1500, raw, 1000])).is_ok());
        assert_eq!(radio.get_command().mode_select, mode);
    }
}

#[test]
fn valid_frame_passes_checksum() {
    let f = frame_with([1500, 1500, 1000, 1500, 1000, 1000]);
    assert!(checksum_matches(&f));
    let mut radio = Radio::new();
    assert_eq!(radio.read(&f), Ok(()));
    assert_eq!(radio.buf, f);
}

#[test]
fn single_bit_flip_is_rejected() {
    let f = frame_with([1234, 1800, 1100, 1500, 2000, 1000]);
    for i in 0..29 {
        for bit in 0..8 {
            let mut g = f;
            g[i] ^= 1 << bit;
            assert!(!checksum_matches(&g), "byte {} bit {}", i, bit);
            let mut radio = Radio::new();
            assert!(radio.read(&f).is_ok());
            assert_eq!(radio.read(&g), Err(RadioError::ChecksumError));
            assert_eq!(radio.buf, f);
        }
    }
}

#[test]
fn blank_receiver_decodes_to_low_sticks() {
    let c = Radio::new().get_command();
    assert_eq!(c.z_throttle, 0);
    assert_eq!(c.x_throttle, -1000);
    assert_eq!(c.mode_select, 0);
}
