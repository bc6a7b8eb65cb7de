use esp32_s3_box3::api::{
    api_list_handler, media_handler,
    brightness_handler, detected_handler, display_request, display_state_handler, mic_mute_handler,
    mic_volume_handler, parse_u8, power_state_handler, sensor_fetcher, speaker_mute_handler,
    speaker_volume_handler, voice_fail_handler, voice_state_handler, voice_win_handler, ApiSettings,
};
use esp32_s3_box3::display::DisplayController;
use esp32_s3_box3::media::{PlaybackState, Player};
use esp32_s3_box3::state::DisplayCommand;

#[test]
fn parse_u8_follows_from_str() {
    for s in ["0", "7", "+7", "007", "255", "256", "", "+", "-1", " 1", "1 ", "12a", "1000", "99999999999"] {
        assert_eq!(parse_u8(s), s.parse::<u8>().ok(), "input {:?}", s);
    }
    assert_eq!(parse_u8("\u{661}"), None);
}

#[test]
fn brightness_is_capped() {
    let mut s = ApiSettings::new();
    assert_eq!(brightness_handler(Some("70"), &mut s), "Brightness set to 70");
    assert_eq!(s.backlight_percent, 70);
    assert_eq!(brightness_handler(Some("200"), &mut s), "Brightness set to 200");
    assert_eq!(s.backlight_percent, 100);
    assert_eq!(brightness_handler(Some("bright"), &mut s), "Brightness set to bright");
    assert_eq!(s.backlight_percent, 100);
    assert_eq!(brightness_handler(None, &mut s), "Brightness set to ?");
    assert_eq!(s.backlight_percent, 100);
    assert_eq!(brightness_handler(Some("75"), &mut s), "Brightness set to 75");
    assert_eq!(s.backlight_percent, 75);
    assert_eq!(brightness_handler(Some("90"), &mut s), "Brightness set to 90");
    assert_eq!(s.backlight_percent, 90);
}

#[test]
fn power_and_display_switch() {
    let mut s = ApiSettings::new();
    assert_eq!(power_state_handler(Some("off"), &mut s), "OFF");
    assert!(!s.power_on);
    assert_eq!(power_state_handler(None, &mut s), "ON");
    assert_eq!(power_state_handler(Some("toggle"), &mut s), "OFF");
    assert_eq!(power_state_handler(Some("on"), &mut s), "ON");
    let off = display_state_handler(Some("off"), &mut s);
    assert_eq!((off.command, off.touch_activity, off.answer), (DisplayCommand::Stop, false, "OFF"));
    assert!(!s.display_on && s.power_on);
    let on = display_state_handler(Some("on"), &mut s);
    assert_eq!((on.command, on.touch_activity, on.answer), (DisplayCommand::Start, true, "ON"));
    assert!(s.display_on);
    let toggled = display_state_handler(None, &mut s);
    assert_eq!((toggled.command, toggled.touch_activity, toggled.answer), (DisplayCommand::Stop, false, "OFF"));
    let started = display_state_handler(Some("start"), &mut s);
    assert_eq!(started.answer, "ON");
    assert!(s.display_on);
}

#[test]
fn volumes_and_mutes() {
    let mut s = ApiSettings::new();
    assert_eq!(mic_volume_handler(Some("150"), &mut s), "Mic volume 150");
    assert_eq!(s.mic_volume, 100);
    assert_eq!(mic_volume_handler(Some("x"), &mut s), "Mic volume x");
    assert_eq!(s.mic_volume, 100);
    assert_eq!(speaker_volume_handler(Some("33"), &mut s), "Speaker volume 33");
    assert_eq!(s.speaker_volume, 33);
    assert_eq!(mic_mute_handler(Some("mute"), &mut s), "muted");
    assert_eq!((s.mic_muted, s.mic_volume), (true, 0));
    assert_eq!(mic_mute_handler(None, &mut s), "unmuted");
    assert_eq!((s.mic_muted, s.mic_volume), (false, 72));
    assert_eq!(speaker_mute_handler(Some("1"), &mut s), "muted");
    assert_eq!(s.speaker_volume, 0);
    assert_eq!(speaker_mute_handler(Some("unmute"), &mut s), "unmuted");
    assert_eq!(s.speaker_volume, 58);
}

#[test]
fn voice_events_set_backlight() {
    let mut s = ApiSettings::new();
    assert_eq!(detected_handler(&mut s), "OK");
    assert_eq!(s.backlight_percent, 70);
    assert_eq!(voice_win_handler(&mut s), "OK");
    assert_eq!(s.backlight_percent, 0);
    detected_handler(&mut s);
    assert_eq!(voice_fail_handler(&mut s), "OK");
    assert_eq!(s.backlight_percent, 0);
}

#[test]
fn sensor_readings() {
    assert_eq!(sensor_fetcher(Some("temperature")), "23.6");
    assert_eq!(sensor_fetcher(Some("hum")), "48");
    assert_eq!(sensor_fetcher(Some("battery_percentage")), "78");
    assert_eq!(sensor_fetcher(Some("voltage")), "3.84");
    assert_eq!(sensor_fetcher(Some("battery_voltage")), "3.84");
    assert_eq!(sensor_fetcher(Some("motion")), "Clear");
    assert_eq!(sensor_fetcher(Some("wifi")), "-54");
    assert_eq!(sensor_fetcher(Some("ip")), "192.168.1.122");
    assert_eq!(sensor_fetcher(Some("uptime")), "3d 14h");
    assert_eq!(sensor_fetcher(Some("version")), "v2.1.0");
    assert_eq!(sensor_fetcher(Some("pressure")), "unknown");
    assert_eq!(sensor_fetcher(None), "unknown");
}

#[test]
fn voice_state_values() {
    assert_eq!(voice_state_handler(Some("start")), "ok");
    assert_eq!(voice_state_handler(Some("stop")), "ok");
    assert_eq!(voice_state_handler(Some("pause")), "invalid state (use start/stop)");
    assert_eq!(voice_state_handler(None), "invalid state (use start/stop)");
}

#[test]
fn display_route_decisions() {
    assert_eq!(display_request(Some("enabled"), false), (true, DisplayCommand::Start, "ON"));
    assert_eq!(display_request(Some("0"), true), (false, DisplayCommand::Stop, "OFF"));
    assert_eq!(display_request(None, true), (false, DisplayCommand::Stop, "OFF"));
    assert_eq!(display_request(Some("what"), false), (true, DisplayCommand::Start, "ON"));
}

#[test]
fn display_session_lifecycle() {
    let mut d = DisplayController::new();
    assert_eq!(d.command_while_off(DisplayCommand::Stop, 35, 35, 1000), None);
    assert!(!d.on);
    assert_eq!(d.command_while_off(DisplayCommand::Start, 35, 35, 1000), Some(35));
    assert!(d.on);
    assert_eq!(d.deadline_ms, 36_000);
    let a = d.tick(false, false, 35, 2, 1200);
    assert!(a.redraw && a.set_duty.is_none() && !a.clear_touch);
    let a = d.tick(false, true, 50, 2, 30_000);
    assert!(!a.redraw && a.clear_touch);
    assert_eq!(a.set_duty, Some(50));
    assert_eq!(d.deadline_ms, 65_000);
    assert!(!d.after_wait(false, 64_999));
    assert!(d.after_wait(false, 65_000));
    assert!(!d.on);
    assert_eq!(d.current_brightness, 0);
}

#[test]
fn display_stop_turns_off() {
    let mut d = DisplayController::new();
    d.command_while_off(DisplayCommand::Start, 10, 5, 0);
    let a = d.tick(true, false, 10, 0, 100);
    assert_eq!(a.set_duty, Some(0));
    assert!(!d.on);
    let mut e = DisplayController::new();
    e.command_while_off(DisplayCommand::Start, 10, 5, 0);
    assert!(e.after_wait(true, 1));
}

#[test]
fn toggling_twice_restores_the_switch() {
    let mut s = ApiSettings::new();
    let before = s.display_on;
    display_state_handler(Some("flip"), &mut s);
    assert_ne!(s.display_on, before);
    display_state_handler(Some("flip"), &mut s);
    assert_eq!(s.display_on, before);
    assert_eq!(power_state_handler(Some("on"), &mut s), "ON");
    assert_eq!(power_state_handler(Some("on"), &mut s), "ON");
}

#[test]
fn api_list_names_one_endpoint_per_line() {
    assert_eq!(
        api_list_handler(),
        "/\n/api/settings/power/state/{value}\n/api/settings/display/state/{value}"
    );
}

#[test]
fn media_route_acts_on_its_parameter() {
    let mut p = Player::new();
    let mut vol: u8 = 58;
    assert_eq!(media_handler(None, &mut p, &mut vol), "Unknown action");
    assert_eq!(p.state, PlaybackState::Stopped);
    assert_eq!(media_handler(Some("play"), &mut p, &mut vol), "Playing");
    assert_eq!(media_handler(Some("next"), &mut p, &mut vol), "Next track");
    assert_eq!(p.current_track_index, 1);
    assert_eq!(media_handler(Some("volume_down"), &mut p, &mut vol), "Volume down");
    assert_eq!(vol, 53);
    assert_eq!(media_handler(Some("status"), &mut p, &mut vol), "Playing");
}
