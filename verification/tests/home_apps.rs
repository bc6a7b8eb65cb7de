use esp32_s3_box3::applications::duck_tv::{
    browse_category, browse_item_name, play_pause, power, send_media_command, tv_step, volume_down as tv_volume_down,
    volume_up as tv_volume_up, PlaybackState, TvCommand, TvFlags,
};
use esp32_s3_box3::applications::zigduck::{
    browse_entries, home_request, parse_directories, url_encode as form_url_encode, HomeCommand,
};
use esp32_s3_box3::applications::{caller, duck_tv, gallery, zigduck, Page};

const IP: &str = "192.168.1.224";
const BASE: &str = "http://192.168.1.211:13335";

fn device_of(cmd: &HomeCommand) -> Option<String> {
    match cmd {
        HomeCommand::MediaPlay(d)
        | HomeCommand::MediaPause(d)
        | HomeCommand::MediaNext(d)
        | HomeCommand::MediaPrev(d)
        | HomeCommand::MediaPowerOn(d)
        | HomeCommand::MediaPowerOff(d)
        | HomeCommand::MediaVolumeUp(d)
        | HomeCommand::MediaVolumeDown(d) => d.clone(),
        _ => None,
    }
}

#[test]
fn apps_open_their_pages() {
    assert_eq!(duck_tv::open_app(), Page::DuckTv);
    assert_eq!(zigduck::open_app(), Page::Zigduck);
    assert_eq!(gallery::open_app(), Page::Gallery);
    assert_eq!(caller::open_app(), Page::Call);
}

#[test]
fn media_sentences() {
    let mut tv = TvFlags { is_on: false, is_playing: false };
    assert_eq!(send_media_command("Music", "ABBA", &mut tv), "spela upp artisten ABBA");
    assert_eq!(tv, TvFlags { is_on: true, is_playing: true });
    assert_eq!(send_media_command("TV", "Friends", &mut tv), "spela upp serien Friends");
    assert_eq!(send_media_command("Movies", "Alien", &mut tv), "spela upp filmen Alien");
    assert_eq!(send_media_command("Radio", "P3", &mut tv), "spela upp P3");
    assert_eq!(send_media_command("music", "ABBA", &mut tv), "spela upp ABBA");
    let mut playing_off = TvFlags { is_on: true, is_playing: false };
    send_media_command("TV", "Friends", &mut playing_off);
    assert_eq!(playing_off, TvFlags { is_on: true, is_playing: true });
}

#[test]
fn tv_remote_transitions() {
    let s = tv_step(PlaybackState::Stopped, TvCommand::Play, IP);
    assert_eq!(s.state, PlaybackState::Playing);
    assert!(matches!(s.request, Some(HomeCommand::MediaPlay(_))));
    assert_eq!(device_of(s.request.as_ref().unwrap()).as_deref(), Some(IP));
    assert_eq!(s.is_playing, Some(true));

    let s = tv_step(PlaybackState::Playing, TvCommand::Pause, IP);
    assert_eq!(s.state, PlaybackState::Paused);
    assert!(matches!(s.request, Some(HomeCommand::MediaPause(_))));
    assert_eq!(s.is_playing, Some(false));

    let s = tv_step(PlaybackState::Playing, TvCommand::Stop, IP);
    assert_eq!(s.state, PlaybackState::Stopped);
    assert!(matches!(s.request, Some(HomeCommand::MediaPause(_))));

    let s = tv_step(PlaybackState::Paused, TvCommand::Stop, IP);
    assert_eq!(s.state, PlaybackState::Stopped);
    assert!(s.request.is_none());
    assert_eq!(s.is_playing, Some(false));

    let s = tv_step(PlaybackState::Paused, TvCommand::Next, IP);
    assert_eq!(s.state, PlaybackState::Playing);
    assert!(matches!(s.request, Some(HomeCommand::MediaNext(_))));
    assert_eq!(s.is_playing, None);

    let s = tv_step(PlaybackState::Playing, TvCommand::Heart, IP);
    assert_eq!(s.state, PlaybackState::Playing);
    assert!(s.request.is_none());
}

#[test]
fn tv_volume_and_power() {
    let (v, cmd) = tv_volume_up(88, IP);
    assert_eq!(v, 90);
    assert!(matches!(cmd, HomeCommand::MediaVolumeUp(Some(ref d)) if d == IP));
    assert_eq!(tv_volume_up(45, IP).0, 50);
    assert!(matches!(tv_volume_down(IP), HomeCommand::MediaVolumeDown(Some(_))));
    let (cmd, on) = power(true, IP);
    assert!(!on && matches!(cmd, HomeCommand::MediaPowerOff(_)));
    let (cmd, on) = power(false, IP);
    assert!(on && matches!(cmd, HomeCommand::MediaPowerOn(_)));
    assert_eq!(play_pause(true), TvCommand::Pause);
    assert_eq!(play_pause(false), TvCommand::Play);
}

#[test]
fn form_encoding_of_commands() {
    let mut buf: heapless::String<256> = heapless::String::new();
    assert!(form_url_encode("turn on the lights-1_2.3~", &mut buf).is_ok());
    assert_eq!(buf.as_str(), "turn+on+the+lights-1_2.3~");
    let mut buf2: heapless::String<256> = heapless::String::new();
    assert!(form_url_encode("a/b&\u{e4}", &mut buf2).is_ok());
    assert_eq!(buf2.as_str(), "a%2Fb%26%C3%A4");
    let mut buf3: heapless::String<256> = heapless::String::new();
    let long = "x".repeat(86);
    assert!(form_url_encode(&long, &mut buf3).is_err());
    let mut buf4: heapless::String<256> = heapless::String::new();
    assert!(form_url_encode(&"x".repeat(85), &mut buf4).is_ok());
    assert_eq!(buf4.len(), 85);
}

#[test]
fn directory_lists() {
    let dirs = parse_directories("{\"files\":[],\"directories\":[\"A\", \" B \",\"\"]}");
    let names: Vec<&str> = dirs.iter().map(|s| s.as_str()).collect();
    assert_eq!(names, vec!["A", "B"]);
    assert!(parse_directories("{\"files\":[\"x\"]}").is_empty());
    assert!(parse_directories("{\"directories\":[\"open").is_empty());
    let body = b"{\"directories\":[\"Season 1\",\"Season 2\"]}";
    assert_eq!(browse_entries(body).len(), 2);
    assert!(browse_entries(&[0xff, 0xfe]).is_empty());
}

#[test]
fn home_requests() {
    let nlp = home_request(BASE, &HomeCommand::Nlp("turn on lights".to_string()), false, IP).unwrap();
    assert_eq!(nlp.url, format!("{}/do?cmd=turn+on+lights", BASE));
    assert!(nlp.browse.is_none());
    let dev = home_request(BASE, &HomeCommand::DeviceState("lamp".to_string(), true), false, IP).unwrap();
    assert_eq!(dev.url, format!("{}/device/lamp/state/on", BASE));
    let off = home_request(BASE, &HomeCommand::DeviceState("lamp".to_string(), false), false, IP).unwrap();
    assert_eq!(off.url, format!("{}/device/lamp/state/off", BASE));
    let toggle = home_request(BASE, &HomeCommand::ToggleLights, true, IP).unwrap();
    assert_eq!(toggle.url, format!("{}/scene/max", BASE));
    let dark = home_request(BASE, &HomeCommand::ToggleLights, false, IP).unwrap();
    assert_eq!(dark.url, format!("{}/scene/dark", BASE));
    let vol = home_request(BASE, &HomeCommand::MediaVolumeUp(None), false, IP).unwrap();
    assert_eq!(vol.url, format!("{}/media/volume/up?device={}", BASE, IP));
    let prev = home_request(BASE, &HomeCommand::MediaPrev(None), false, IP).unwrap();
    assert_eq!(prev.url, format!("{}/media/previous?device={}", BASE, IP));
    let pause = home_request(BASE, &HomeCommand::MediaPause(None), false, IP).unwrap();
    assert_eq!(pause.url, format!("{}/media/play?device={}", BASE, IP));
    let too_long = home_request(BASE, &HomeCommand::Nlp("y".repeat(90)), false, IP);
    assert!(too_long.is_none());
}

#[test]
fn browse_requests() {
    let tv = home_request(BASE, &HomeCommand::BrowseTv(String::new()), false, IP).unwrap();
    assert_eq!(tv.url, format!("{}/browse?path=TV", BASE));
    let (cat, path) = tv.browse.unwrap();
    assert_eq!((cat, path.as_str()), ("TV", "TV"));
    let music = home_request(BASE, &HomeCommand::BrowseMusic("Rock/80s".to_string()), false, IP).unwrap();
    assert_eq!(music.url, format!("{}/browse?path=Music%2FRock%2F80s", BASE));
    let (cat, path) = music.browse.unwrap();
    assert_eq!((cat, path.as_str()), ("Music", "Music/Rock/80s"));
}

#[test]
fn tv_pause_then_play_resumes() {
    let p = tv_step(PlaybackState::Playing, TvCommand::Pause, IP);
    let r = tv_step(p.state, TvCommand::Play, IP);
    assert_eq!(r.state, PlaybackState::Playing);
    assert_eq!(r.is_playing, Some(true));
    assert!(matches!(r.request, Some(HomeCommand::MediaPlay(_))));
    for s in [PlaybackState::Stopped, PlaybackState::Paused, PlaybackState::Playing] {
        let c = tv_step(s, TvCommand::Clear, IP);
        assert_eq!(c.state, s);
        assert!(c.request.is_none() && c.is_playing.is_none());
    }
}

#[test]
fn browse_state_accessors() {
    assert_eq!(browse_category(""), None);
    assert_eq!(browse_category("Music").as_deref(), Some("Music"));
    let items = parse_directories("{\"directories\":[\"Season 1\",\"Season 2\"]}");
    assert_eq!(browse_item_name(&items, 1).as_deref(), Some("Season 2"));
    assert!(browse_item_name(&items, 2).is_none());
}

#[test]
fn tv_repeated_commands_send_nothing() {
    let s = tv_step(PlaybackState::Playing, TvCommand::Play, IP);
    assert_eq!(s.state, PlaybackState::Playing);
    assert!(s.request.is_none());
    assert_eq!(s.is_playing, None);
    for state in [PlaybackState::Stopped, PlaybackState::Paused] {
        let s = tv_step(state, TvCommand::Pause, IP);
        assert_eq!(s.state, state);
        assert!(s.request.is_none());
        assert_eq!(s.is_playing, None);
    }
}

#[test]
fn directory_names_are_trimmed_of_unicode_white_space() {
    let dirs = parse_directories("{\"directories\":[\u{3000}\"Kids\"\u{a0}, \u{2003}\"News\u{200b}\"\n]}");
    let names: Vec<&str> = dirs.iter().map(|s| s.as_str()).collect();
    assert_eq!(names, vec!["Kids", "News\u{200b}"]);
    for c in ['\t', '\r', ' ', '\u{85}', '\u{a0}', '\u{1680}', '\u{2000}', '\u{200a}', '\u{2028}', '\u{2029}', '\u{202f}', '\u{205f}', '\u{3000}'] {
        assert!(c.is_whitespace());
    }
    for c in ['\u{200b}', '\u{180e}', '\u{feff}', 'a'] {
        assert!(!c.is_whitespace());
    }
}
