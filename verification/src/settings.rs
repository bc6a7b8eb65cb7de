//! Device settings: speaker volume and microphone gain, the display flash,
//! and the temperature/humidity sensor's raw reading.

use vstd::prelude::*;
use crate::time::trunc_div;

verus! {

pub const I2S_SAMPLE_RATE: u32 = 16000;
pub const I2S_BIT_WIDTH: u8 = 16;
/// MCLK runs at this multiple of the sample rate.
pub const MCLK_RATIO: u32 = 256;

/// What a new speaker volume asks of the ES8311 codec and the amplifier.
#[derive(Clone, Copy, PartialEq, Eq, Structural, Debug)]
pub struct SpeakerVolumePlan {
    /// The volume kept, capped at 100.
    pub volume: u8,
    /// Mute the codec, put it into standby and switch the amplifier off.
    pub mute_and_standby: bool,
    /// Re-initialise and unmute the codec, then switch the amplifier on.
    pub wake_codec: bool,
    /// Write the volume to the codec.
    pub set_volume: bool,
    /// Whether the speaker counts as muted afterwards.
    pub muted_after: bool,
}

// FUNCTION TO CONTROL SPEAKER VOLUME (0-100%)
/// Volume 0 mutes the codec and puts it into standby; a positive volume
/// wakes the codec first if it was muted, then sets the volume.
pub fn speaker_volume_plan(volume: u8, was_muted: bool) -> (r: SpeakerVolumePlan)
    ensures
        r.volume == if volume < 100 { volume } else { 100 },
        r.volume == 0 ==> r.mute_and_standby && !r.wake_codec && !r.set_volume && r.muted_after,
        r.volume > 0 ==> !r.mute_and_standby && r.wake_codec == was_muted && r.set_volume
            && !r.muted_after,
{
    let volume = if volume < 100 {
        volume
    } else {
        100
    };
    if volume == 0 {
        SpeakerVolumePlan {
            volume,
            mute_and_standby: true,
            wake_codec: false,
            set_volume: false,
            muted_after: true,
        }
    } else {
        SpeakerVolumePlan {
            volume,
            mute_and_standby: false,
            wake_codec: was_muted,
            set_volume: true,
            muted_after: false,
        }
    }
}

/// Clock settings with which the ES8311 is woken: MCLK from its pin at
/// `MCLK_RATIO` times the sample rate. Returns the MCLK and sample
/// frequencies.
pub fn codec_wake_clocks() -> (r: (u32, u32))
    ensures
        r.0 == I2S_SAMPLE_RATE * MCLK_RATIO,
        r.1 == I2S_SAMPLE_RATE,
{
    (I2S_SAMPLE_RATE * MCLK_RATIO, I2S_SAMPLE_RATE)
}

/// The codec resolution, in bits, for an I2S bit width: 16, 24 or 32 as
/// given, anything else 16.
pub fn codec_resolution_bits(bit_width: u8) -> (r: u8)
    ensures
        r == if bit_width == 16 || bit_width == 24 || bit_width == 32 { bit_width } else { 16 },
{
    match bit_width {
        16 => 16,
        24 => 24,
        32 => 32,
        _ => 16,
    }
}

/// Microphone gain in dB for `percent` (0 % is -95 dB, 100 % is +32 dB,
/// linear in between), rounded toward zero.
pub open spec fn mic_gain_db_of(percent: int) -> int {
    trunc_div(127 * percent - 9500, 100)
}

// FUNCTION TO CONTROL MICROPHONE GAIN (0-100%)
/// The microphone setting for `percent`: the percentage kept (capped at
/// 100) and the gain in dB that goes to the ES7210.
pub fn mic_gain_plan(percent: u8) -> (r: (u8, i8))
    ensures
        r.0 == if percent < 100 { percent } else { 100 },
        r.1 == mic_gain_db_of(r.0 as int),
        -95 <= r.1 <= 32,
{
    let p = if percent < 100 {
        percent
    } else {
        100
    };
    let db = (127 * (p as i32) - 9500) / 100;
    (p, db as i8)
}

/// The brightness that step `step` of a flash sets: `times` rounds of 80
/// then 0, then `saved` back; `None` once the flash is over. The steps
/// are 200 ms apart.
pub fn flash(saved: u8, times: u32, step: u64) -> (r: Option<u8>)
    ensures
        step < 2 * times ==> r == Some(if step % 2 == 0 { 80u8 } else { 0u8 }),
        step == 2 * times ==> r == Some(saved),
        step > 2 * times ==> r is None,
{
    let n = 2 * (times as u64);
    if step < n {
        if step % 2 == 0 {
            Some(80)
        } else {
            Some(0)
        }
    } else if step == n {
        Some(saved)
    } else {
        None
    }
}

/// AHT20 command that initialises the sensor.
pub const AHT20_INIT_CMD: [u8; 3] = [0xBE, 0x08, 0x00];
/// AHT20 command that starts a measurement.
pub const AHT20_MEASURE_CMD: [u8; 3] = [0xAC, 0x33, 0x00];
pub const AHT20_ADDR: u8 = 0x38;

/// Raw 20-bit humidity and temperature of an AHT20 reading: `None` while
/// the busy bit (bit 7 of the status byte) is set; else humidity from
/// bytes 1, 2 and the high nibble of byte 3, temperature from the low
/// nibble of byte 3 and bytes 4, 5.
pub fn aht20_raw(buf: [u8; 6]) -> (r: Option<(u32, u32)>)
    ensures
        buf[0] >= 128 ==> r is None,
        buf[0] < 128 ==> r == Some(
            (
                (buf[1] as int * 4096 + buf[2] as int * 16 + buf[3] as int / 16) as u32,
                ((buf[3] as int % 16) * 65536 + buf[4] as int * 256 + buf[5] as int) as u32,
            ),
        ),
{
    let status = buf[0];
    if status & 0x80 != 0 {
        assert(status >= 128) by (bit_vector)
            requires
                status & 0x80 != 0,
        ;
        return None;
    }
    assert(status < 128) by (bit_vector)
        requires
            status & 0x80 == 0,
    ;
    let b1 = buf[1] as u32;
    let b2 = buf[2] as u32;
    let b3 = buf[3] as u32;
    let b4 = buf[4] as u32;
    let b5 = buf[5] as u32;
    let raw_hum = (b1 << 12) | (b2 << 4) | (b3 >> 4);
    let raw_temp = ((b3 & 0x0F) << 16) | (b4 << 8) | b5;
    assert(raw_hum == b1 * 4096 + b2 * 16 + b3 / 16) by (bit_vector)
        requires
            b1 < 256,
            b2 < 256,
            b3 < 256,
            raw_hum == (b1 << 12) | (b2 << 4) | (b3 >> 4),
    ;
    assert(raw_temp == (b3 % 16) * 65536 + b4 * 256 + b5) by (bit_vector)
        requires
            b3 < 256,
            b4 < 256,
            b5 < 256,
            raw_temp == ((b3 & 0x0F) << 16) | (b4 << 8) | b5,
    ;
    Some((raw_hum, raw_temp))
}

/// Battery voltage (mV) that reads as empty / full without USB power.
pub const EMPTY_BATTERY: u32 = 1200;
pub const FULL_BATTERY: u32 = 1980;
/// The same while USB power is connected.
pub const EMPTY_BATTERY_CHARGING: u32 = 4200;
pub const FULL_BATTERY_CHARGING: u32 = 4521;

/// What the battery reading reports.
#[derive(Clone, Copy, PartialEq, Eq, Structural, Debug)]
pub struct BatteryStatus {
    pub percent: u8,
    pub full: bool,
    pub need_charging: bool,
}

/// Charge in percent for a battery voltage: linear between the empty and
/// full voltages of the current power source (rounded toward zero), kept
/// within 0..=100.
pub open spec fn battery_percent_of(voltage_mv: int, usb_connected: bool) -> int {
    let empty: int = if usb_connected { EMPTY_BATTERY_CHARGING as int } else { EMPTY_BATTERY as int };
    let full: int = if usb_connected { FULL_BATTERY_CHARGING as int } else { FULL_BATTERY as int };
    let raw = trunc_div((voltage_mv - empty) * 100, full - empty);
    if raw < 0 {
        0
    } else if raw > 100 {
        100
    } else {
        raw
    }
}

/// A `u32` taken as an `i32` (`as`): values above `i32::MAX` wrap to
/// negative ones.
pub open spec fn wrap_i32(v: u32) -> int {
    if v <= i32::MAX { v as int } else { v - 0x1_0000_0000 }
}

/// The voltage of an empty battery for the current power source.
pub open spec fn empty_mv(usb_connected: bool) -> int {
    if usb_connected { EMPTY_BATTERY_CHARGING as int } else { EMPTY_BATTERY as int }
}

/// The battery's charge, whether it is full (100 %) and whether it needs
/// charging (below 25 %). The reading is taken as an `i32`, and its
/// distance from the empty voltage, times 100, must fit in an `i32`.
pub fn battery_status(voltage_mv: u32, usb_connected: bool) -> (r: BatteryStatus)
    requires
        i32::MIN <= (wrap_i32(voltage_mv) - empty_mv(usb_connected)) * 100 <= i32::MAX,
    ensures
        r.percent == battery_percent_of(wrap_i32(voltage_mv), usb_connected),
        r.full == (r.percent == 100),
        r.need_charging == (r.percent < 25),
{
    let (empty, full) = if usb_connected {
        (EMPTY_BATTERY_CHARGING, FULL_BATTERY_CHARGING)
    } else {
        (EMPTY_BATTERY, FULL_BATTERY)
    };
    let v = #[verifier::truncate] (voltage_mv as i32);
    assert(voltage_mv <= 0x7fff_ffff ==> (voltage_mv as i32) as int == voltage_mv as int) by (bit_vector);
    assert(voltage_mv > 0x7fff_ffff ==> (voltage_mv as i32) as int == voltage_mv as int - 0x1_0000_0000) by (bit_vector);
    let raw_pct = (v - empty as i32) * 100 / (full as i32 - empty as i32);
    let percent: u8 = if raw_pct < 0 {
        0
    } else if raw_pct > 100 {
        100
    } else {
        raw_pct as u8
    };
    BatteryStatus { percent, full: percent == 100, need_charging: percent < 25 }
}

/// Whole days, the hours left over and the minutes left over of an uptime
/// in seconds.
pub fn uptime_parts(secs: u64) -> (r: (u64, u64, u64))
    ensures
        r.0 == secs / 86400,
        r.1 == secs % 86400 / 3600,
        r.2 == secs % 3600 / 60,
        r.1 < 24 && r.2 < 60,
{
    (secs / 86400, secs % 86400 / 3600, secs % 3600 / 60)
}

/// Wi-Fi signal in percent as logged: -100 dBm is 0 %, each 0.7 dB one
/// percent more (rounded toward zero), kept within 0..=100.
pub fn signal_percent(rssi: i32) -> (r: i32)
    requires
        rssi <= i32::MAX - 100,
        (rssi + 100) * 100 >= i32::MIN,
        (rssi + 100) * 100 <= i32::MAX,
    ensures
        r == ({
            let p = trunc_div((rssi + 100) * 100, 70);
            if p < 0 {
                0
            } else if p > 100 {
                100
            } else {
                p
            }
        }),
{
    let p = (rssi + 100) * 100 / 70;
    if p < 0 {
        0
    } else if p > 100 {
        100
    } else {
        p
    }
}

} // verus!
