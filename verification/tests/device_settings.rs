use esp32_s3_box3::settings::{
    battery_status, signal_percent, uptime_parts, aht20_raw, codec_resolution_bits, codec_wake_clocks, flash, mic_gain_plan, speaker_volume_plan,
};

#[test]
fn volume_zero_mutes_and_powers_down() {
    let p = speaker_volume_plan(0, false);
    assert_eq!(p.volume, 0);
    assert!(p.mute_and_standby && !p.wake_codec && !p.set_volume && p.muted_after);
}

#[test]
fn volume_is_capped_at_one_hundred() {
    let p = speaker_volume_plan(250, false);
    assert_eq!(p.volume, 100);
    assert!(!p.mute_and_standby && !p.wake_codec && p.set_volume && !p.muted_after);
}

#[test]
fn volume_after_mute_wakes_the_codec() {
    let p = speaker_volume_plan(40, true);
    assert_eq!(p.volume, 40);
    assert!(p.wake_codec && p.set_volume && !p.muted_after);
    let q = speaker_volume_plan(40, false);
    assert!(!q.wake_codec && q.set_volume);
}

#[test]
fn codec_wake_clock_settings() {
    assert_eq!(codec_wake_clocks(), (4_096_000, 16_000));
    assert_eq!(codec_resolution_bits(16), 16);
    assert_eq!(codec_resolution_bits(24), 24);
    assert_eq!(codec_resolution_bits(32), 32);
    assert_eq!(codec_resolution_bits(20), 16);
}

#[test]
fn mic_gain_ends() {
    assert_eq!(mic_gain_plan(0), (0, -95));
    assert_eq!(mic_gain_plan(100), (100, 32));
    assert_eq!(mic_gain_plan(200), (100, 32));
    assert_eq!(mic_gain_plan(72), (72, -3));
    assert_eq!(mic_gain_plan(1), (1, -93));
}

#[test]
fn mic_gain_matches_float_formula_for_every_percentage() {
    for p in 0u8..=255 {
        let kept = p.min(100);
        let db = -95.0 + (127.0 * kept as f32 / 100.0);
        assert_eq!(mic_gain_plan(p), (kept, db as i8), "percent {}", p);
    }
}

#[test]
fn flash_sequence() {
    let steps: Vec<Option<u8>> = (0..8).map(|k| flash(35, 3, k)).collect();
    assert_eq!(steps, vec![Some(80), Some(0), Some(80), Some(0), Some(80), Some(0), Some(35), None]);
    assert_eq!(flash(12, 0, 0), Some(12));
    assert_eq!(flash(12, 0, 1), None);
}

#[test]
fn aht20_busy_reading_is_rejected() {
    assert_eq!(aht20_raw([0x80, 1, 2, 3, 4, 5]), None);
    assert_eq!(aht20_raw([0x9c, 0, 0, 0, 0, 0]), None);
}

#[test]
fn aht20_raw_fields() {
    assert_eq!(aht20_raw([0x1c, 0x12, 0x34, 0x56, 0x78, 0x9a]), Some((0x12345, 0x6789a)));
    assert_eq!(aht20_raw([0x00, 0xff, 0xff, 0xff, 0xff, 0xff]), Some((0xfffff, 0xfffff)));
    assert_eq!(aht20_raw([0x00, 0, 0, 0, 0, 0]), Some((0, 0)));
}

#[test]
fn battery_percent_on_battery_and_usb() {
    let s = battery_status(1590, false);
    assert_eq!((s.percent, s.full, s.need_charging), (50, false, false));
    assert_eq!(battery_status(1000, false).percent, 0);
    assert!(battery_status(1000, false).need_charging);
    let full = battery_status(2500, false);
    assert_eq!((full.percent, full.full), (100, true));
    assert_eq!(battery_status(4360, true).percent, 49);
    assert_eq!(battery_status(1300, false).percent, 12);
    assert_eq!(battery_status(1394, false).percent, 24);
    assert!(battery_status(1394, false).need_charging);
    assert!(!battery_status(1395, false).need_charging);
    assert_eq!(battery_status(21_000_000, false).percent, 100);
    assert_eq!(battery_status(u32::MAX, false).percent, 0);
    assert_eq!(battery_status(u32::MAX, true).percent, 0);
}

#[test]
fn uptime_and_signal() {
    assert_eq!(uptime_parts(0), (0, 0, 0));
    assert_eq!(uptime_parts(3 * 86400 + 14 * 3600 + 5 * 60 + 59), (3, 14, 5));
    assert_eq!(signal_percent(-100), 0);
    assert_eq!(signal_percent(-65), 50);
    assert_eq!(signal_percent(-30), 100);
    assert_eq!(signal_percent(-10), 100);
    assert_eq!(signal_percent(-120), 0);
    assert_eq!(signal_percent(-99), 1);
}
