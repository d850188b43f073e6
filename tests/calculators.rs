use spirit1_rs::band::BandSelect;
use spirit1_rs::calc::{
    calculate_rx_timeout, carrier_offset_steps, channel_spacing, compute_rssi_threshold, if_offset,
    pa_power_from_dbm,
};
use spirit1_rs::constants::{f_offset_lower_limit, f_offset_upper_limit};
use spirit1_rs::registers::{ChFlt, FreqDev0, Modulation, PaSlot};

#[test]
fn data_rate_default_configuration() {
    // 50 MHz crystal through the clock divider: a 25 MHz digital clock.
    assert_eq!(Modulation::calculate_data_rate(38_400, false, 50_000_000), (147, 10));
}

#[test]
fn data_rate_without_divider() {
    // 26 MHz crystal clocking the digital part directly: the reset value pair.
    assert_eq!(Modulation::calculate_data_rate(38_400, true, 26_000_000), (131, 10));
}

#[test]
fn data_rate_is_nearest_setting() {
    let (m, e) = Modulation::calculate_data_rate(250_000, false, 50_000_000);
    let rate = |m: u64, e: u32| 25_000_000f64 * (256 + m) as f64 * 2f64.powi(e as i32) / 2f64.powi(28);
    let best = (rate(m as u64, e as u32) - 250_000f64).abs();
    for e2 in 0..16u32 {
        for m2 in 0..256u64 {
            assert!((rate(m2, e2) - 250_000f64).abs() >= best - 1e-6);
        }
    }
}

#[test]
fn rssi_threshold_minus_120_dbm() {
    assert_eq!(compute_rssi_threshold(-120), 0x14);
}

#[test]
fn rssi_threshold_saturates_below_floor() {
    assert_eq!(compute_rssi_threshold(-131), compute_rssi_threshold(-130));
    assert_eq!(compute_rssi_threshold(-1000), 0);
    assert_eq!(compute_rssi_threshold(i32::MIN), 0);
}

#[test]
fn rssi_threshold_saturates_above_ceiling() {
    // 2 * (2 + 130) = 264, kept to eight bits.
    assert_eq!(compute_rssi_threshold(2), 8);
    assert_eq!(compute_rssi_threshold(3), 8);
    assert_eq!(compute_rssi_threshold(i32::MAX), 8);
}

#[test]
fn rssi_threshold_in_range() {
    assert_eq!(compute_rssi_threshold(0), 4);
    assert_eq!(compute_rssi_threshold(-100), 60);
}

#[test]
fn rx_timeout_one_second_26mhz() {
    assert_eq!(calculate_rx_timeout(1000, 26_000_000), (254, 83));
}

#[test]
fn rx_timeout_halves_fast_crystal() {
    assert_eq!(calculate_rx_timeout(1000, 50_000_000), (254, 80));
}

#[test]
fn rx_timeout_saturates() {
    assert_eq!(calculate_rx_timeout(10_000_000, 26_000_000), (255, 255));
    assert_eq!(calculate_rx_timeout(u32::MAX, u32::MAX), (255, 255));
}

#[test]
fn rx_timeout_short_rounds_counter() {
    // 21 cycles: prescaler 2, counter 10 rounded up to 11.
    assert_eq!(calculate_rx_timeout(1, 26_000_000), (10, 1));
}

#[test]
fn rx_timeout_counter_at_least_one() {
    for ms in [0u32, 1, 2, 10, 100, 1000, 3000, 100_000] {
        let (counter, prescaler) = calculate_rx_timeout(ms, 26_000_000);
        assert!(counter >= 1);
        let n = ms as u64 * 26_000_000 / 1_210_000;
        if n / 255 <= 253 {
            assert!(prescaler != 0);
        }
    }
    assert_eq!(calculate_rx_timeout(0, 26_000_000), (1, 1));
    // 408 cycles: one 255-cycle block, still a prescaler of 2; counter 204
    // rounded up to 205.
    assert_eq!(calculate_rx_timeout(19, 26_000_000), (204, 1));
}

#[test]
fn frequency_deviation_default() {
    assert_eq!(FreqDev0::calculate_fdev(20_000, 50_000_000), (5, 4));
}

#[test]
fn frequency_deviation_first_mantissa_does_not_underflow() {
    // 11.5 kHz lies below the first candidate of exponent 4: the mantissa stays 0.
    assert_eq!(FreqDev0::calculate_fdev(11_500, 50_000_000), (0, 4));
    assert_eq!(FreqDev0::calculate_fdev(0, 50_000_000), (0, 0));
}

#[test]
fn frequency_deviation_beyond_range() {
    assert_eq!(FreqDev0::calculate_fdev(u32::MAX, 26_000_000), (7, 9));
}

#[test]
fn channel_filter_widest() {
    let f = ChFlt::calculate(1_005_000, false, 50_000_000);
    assert_eq!((f.chflt_m, f.chflt_e), (0, 0));
}

#[test]
fn channel_filter_nearest_entry() {
    // 100 kHz at 26 MHz: nearest entry 100.5 kHz, index 29.
    let f = ChFlt::calculate(100_000, true, 26_000_000);
    assert_eq!((f.chflt_m, f.chflt_e), (2, 3));
}

#[test]
fn channel_filter_narrowest_stays_in_table() {
    let f = ChFlt::calculate(1_100, true, 26_000_000);
    assert_eq!((f.chflt_m, f.chflt_e), (8, 9));
    let f = ChFlt::calculate(0, true, 26_000_000);
    assert_eq!((f.chflt_m, f.chflt_e), (8, 9));
}

#[test]
fn channel_filter_equal_entries_take_first() {
    // 1300 Hz: entries 86 and 87 are both 13.
    let f = ChFlt::calculate(1_300, true, 26_000_000);
    assert_eq!(f.chflt_e as u32 * 9 + f.chflt_m as u32, 86);
}

#[test]
fn channel_filter_monotonic() {
    let mut last = 0u32;
    let mut bw = 900_000u32;
    while bw > 500 {
        let f = ChFlt::calculate(bw, true, 26_000_000);
        let index = f.chflt_e as u32 * 9 + f.chflt_m as u32;
        assert!(index < 90);
        assert!(index >= last);
        last = index;
        bw -= 700;
    }
}

#[test]
fn pa_power_middle_band() {
    assert_eq!(pa_power_from_dbm(PaSlot::Slot1, 0, 433_400_000), Some(27));
    assert_eq!(pa_power_from_dbm(PaSlot::Slot1, 12, 433_400_000), Some(1));
    assert_eq!(pa_power_from_dbm(PaSlot::Slot8, -31, 433_400_000), Some(89));
}

#[test]
fn pa_power_band_rows() {
    assert_eq!(pa_power_from_dbm(PaSlot::Slot1, 0, 915_000_000), Some(25));
    assert_eq!(pa_power_from_dbm(PaSlot::Slot1, 0, 868_000_000), Some(23));
    assert_eq!(pa_power_from_dbm(PaSlot::Slot1, 0, 315_000_000), Some(26));
    assert_eq!(pa_power_from_dbm(PaSlot::Slot1, 0, 169_000_000), Some(30));
}

#[test]
fn pa_power_out_of_range() {
    assert_eq!(pa_power_from_dbm(PaSlot::Slot1, 13, 433_400_000), None);
    assert_eq!(pa_power_from_dbm(PaSlot::Slot1, -32, 433_400_000), None);
    assert_eq!(pa_power_from_dbm(PaSlot::Slot1, 0, 200_000_000), None);
}

#[test]
fn pa_power_always_in_register_range() {
    for base in [169_000_000u32, 315_000_000, 433_400_000, 868_000_000, 915_000_000] {
        for dbm in -31..=12 {
            let v = pa_power_from_dbm(PaSlot::Slot1, dbm, base).unwrap();
            assert!((1..=90).contains(&v));
        }
    }
}

#[test]
fn band_resolution() {
    assert_eq!(BandSelect::from_hz(433_400_000), Some(BandSelect::Middle));
    assert_eq!(BandSelect::from_hz(915_000_000), Some(BandSelect::High));
    assert_eq!(BandSelect::from_hz(200_000_000), None);
}

#[test]
fn band_edges() {
    assert_eq!(BandSelect::from_hz(149_000_000), Some(BandSelect::VeryLow));
    assert_eq!(BandSelect::from_hz(148_999_999), None);
    assert_eq!(BandSelect::from_hz(349_100_000), Some(BandSelect::Low));
    assert_eq!(BandSelect::from_hz(957_100_001), None);
}

#[test]
fn frequency_offset_limits() {
    assert_eq!(f_offset_lower_limit(50_000_000), -389_120);
    assert_eq!(f_offset_upper_limit(50_000_000), 388_930);
    assert_eq!(f_offset_lower_limit(-50_000_000), 389_120);
    assert_eq!(f_offset_upper_limit(-50_000_000), -388_930);
}

#[test]
fn carrier_offset_steps_exact() {
    // -20 ppm of 868 MHz: -17360 Hz, -175.03 steps of 26 MHz / 2^18.
    assert_eq!(carrier_offset_steps(-20, 868_000_000, 26_000_000), -175);
    assert_eq!(carrier_offset_steps(20, 868_000_000, 26_000_000), 175);
    assert_eq!(carrier_offset_steps(0, 433_400_000, 50_000_000), 0);
}

#[test]
fn carrier_offset_steps_clamped() {
    assert_eq!(carrier_offset_steps(i16::MAX, 957_000_000, 8192), 2047);
    assert_eq!(carrier_offset_steps(i16::MIN, 957_000_000, 8192), -2048);
}

#[test]
fn channel_spacing_steps() {
    assert_eq!(channel_spacing(20_000, 50_000_000), 14);
    assert_eq!(channel_spacing(0, 26_000_000), 1);
    assert_eq!(channel_spacing(u32::MAX, 26_000_000), 255);
}

#[test]
fn if_offsets_truncate() {
    assert_eq!(if_offset(50_000_000, 4096), 53);
    assert_eq!(if_offset(50_000_000, 8192), 172);
    assert_eq!(if_offset(26_000_000, 4096), 162);
    assert_eq!(if_offset(8192, 4096), 255);
    assert_eq!(if_offset(u32::MAX, 4096), 0);
}
