//! The HTTP API's handlers: each takes the route's parameter (when the
//! route has one), updates the device settings and returns the response
//! text. Routing and the HTTP server itself live with the caller.

use vstd::prelude::*;
use vstd::string::StringSliceAdditionalSpecFns;
use crate::text::{concat, str_eq};
use crate::state::DisplayCommand;
use crate::media::{Player, action_outcome, action_of, handle_action};

verus! {

/// Default microphone volume restored on unmute.
pub const MIC_DEFAULT_VOLUME: u8 = 72;
/// Default speaker volume restored on unmute.
pub const SPEAKER_DEFAULT_VOLUME: u8 = 58;
/// Highest backlight percentage the API sets.
pub const MAX_BACKLIGHT: u8 = 100;

/// The settings that the API reads and changes.
#[derive(Clone, Copy, PartialEq, Eq, Structural, Debug)]
pub struct ApiSettings {
    pub power_on: bool,
    pub display_on: bool,
    pub mic_volume: u8,
    pub speaker_volume: u8,
    pub mic_muted: bool,
    pub speaker_muted: bool,
    pub backlight_percent: u8,
}

impl ApiSettings {
    /// The settings at boot.
    pub fn new() -> (r: Self)
        ensures
            r.power_on && r.display_on,
            r.mic_volume == MIC_DEFAULT_VOLUME,
            r.speaker_volume == SPEAKER_DEFAULT_VOLUME,
            !r.mic_muted && !r.speaker_muted,
            r.backlight_percent == 0,
    {
        ApiSettings {
            power_on: true,
            display_on: true,
            mic_volume: MIC_DEFAULT_VOLUME,
            speaker_volume: SPEAKER_DEFAULT_VOLUME,
            mic_muted: false,
            speaker_muted: false,
            backlight_percent: 0,
        }
    }
}

/// Value of a run of ASCII digits.
pub open spec fn digits_value(b: Seq<u8>) -> int
    decreases b.len(),
{
    if b.len() == 0 {
        0
    } else {
        digits_value(b.drop_last()) * 10 + (b.last() - 48)
    }
}

pub open spec fn all_digits(b: Seq<u8>) -> bool {
    forall|i: int| 0 <= i < b.len() ==> 48 <= #[trigger] b[i] <= 57
}

/// `u8`'s `from_str` on the UTF-8 bytes `b`: an optional `+`, then one or
/// more ASCII digits whose value is at most 255.
pub open spec fn parse_u8_spec(b: Seq<u8>) -> Option<u8> {
    let d = if b.len() > 0 && b[0] == 0x2b {
        b.drop_first()
    } else {
        b
    };
    if d.len() > 0 && all_digits(d) && digits_value(d) <= 255 {
        Some(digits_value(d) as u8)
    } else {
        None
    }
}

proof fn lemma_digits_value_nonneg(b: Seq<u8>)
    requires
        all_digits(b),
    ensures
        digits_value(b) >= 0,
    decreases b.len(),
{
    if b.len() > 0 {
        lemma_digits_value_nonneg(b.drop_last());
    }
}

/// Parses a decimal `u8` the way `str::parse::<u8>` does.
pub fn parse_u8(s: &str) -> (r: Option<u8>)
    ensures
        r == parse_u8_spec(s.spec_bytes()),
{
    let b = s.as_bytes();
    let n = b.len();
    let start: usize = if n > 0 && b[0] == 0x2b {
        1
    } else {
        0
    };
    let ghost d = if n > 0 && b@[0] == 0x2b {
        b@.drop_first()
    } else {
        b@
    };
    proof {
        assert(d =~= b@.subrange(start as int, n as int));
    }
    if start >= n {
        return None;
    }
    // The value read so far, capped at 256.
    let mut v: u32 = 0;
    let mut i: usize = start;
    while i < n
        invariant
            b@ == s.spec_bytes(),
            n == b@.len(),
            start <= i <= n,
            d == b@.subrange(start as int, n as int),
            d == (if n > 0 && b@[0] == 0x2b {
                b@.drop_first()
            } else {
                b@
            }),
            all_digits(b@.subrange(start as int, i as int)),
            v == if digits_value(b@.subrange(start as int, i as int)) < 256 {
                digits_value(b@.subrange(start as int, i as int))
            } else {
                256
            },
        decreases n - i,
    {
        let c = b[i];
        if c < 48 || c > 57 {
            proof {
                assert(d[i - start] == c);
                assert(!all_digits(d));
            }
            return None;
        }
        let ghost prefix = b@.subrange(start as int, i as int);
        let ghost next = b@.subrange(start as int, i + 1);
        proof {
            assert(next.drop_last() =~= prefix);
            assert(next.last() == c);
            lemma_digits_value_nonneg(prefix);
            assert(all_digits(next)) by {
                assert forall|k: int| 0 <= k < next.len() implies 48 <= #[trigger] next[k] <= 57 by {
                    if k < prefix.len() {
                        assert(next[k] == prefix[k]);
                    }
                }
            }
        }
        let w = v * 10 + (c - 48) as u32;
        v = if w < 256 {
            w
        } else {
            256
        };
        i = i + 1;
    }
    proof {
        assert(b@.subrange(start as int, n as int) =~= d);
    }
    if v <= 255 {
        Some(v as u8)
    } else {
        None
    }
}

/// The settings with the backlight set from a brightness parameter: a
/// number parsed as `u8` and capped at `MAX_BACKLIGHT`; anything else
/// changes nothing.
pub open spec fn with_brightness(s: ApiSettings, value: Seq<u8>) -> ApiSettings {
    match parse_u8_spec(value) {
        Some(p) => ApiSettings {
            backlight_percent: if p < MAX_BACKLIGHT {
                p
            } else {
                MAX_BACKLIGHT
            },
            ..s
        },
        None => s,
    }
}

fn param_or<'a>(value: Option<&'a str>, default: &'static str) -> (r: &'a str)
    ensures
        r@ == match value {
            Some(v) => v@,
            None => default@,
        },
{
    match value {
        Some(v) => v,
        None => default,
    }
}

/// The parameter that a handler acts on: the route's value, or the
/// handler's default when the route has none.
pub open spec fn param_bytes(value: Option<&str>, default: &str) -> Seq<u8> {
    match value {
        Some(v) => v.spec_bytes(),
        None => default.spec_bytes(),
    }
}

/// The parameter's characters: the route's value, or the handler's
/// default.
pub open spec fn param_chars(value: Option<&str>, default: &str) -> Seq<char> {
    match value {
        Some(v) => v@,
        None => default@,
    }
}

pub open spec fn with_power(s: ApiSettings, on: bool) -> ApiSettings {
    ApiSettings { power_on: on, ..s }
}

pub open spec fn with_display(s: ApiSettings, on: bool) -> ApiSettings {
    ApiSettings { display_on: on, ..s }
}

pub open spec fn with_mic_volume(s: ApiSettings, v: u8) -> ApiSettings {
    ApiSettings { mic_volume: v, ..s }
}

pub open spec fn with_speaker_volume(s: ApiSettings, v: u8) -> ApiSettings {
    ApiSettings { speaker_volume: v, ..s }
}

/// Mic muted (volume 0) or unmuted (default volume).
pub open spec fn with_mic_mute(s: ApiSettings, m: bool) -> ApiSettings {
    ApiSettings { mic_muted: m, mic_volume: if m { 0 } else { MIC_DEFAULT_VOLUME }, ..s }
}

/// Speaker muted (volume 0) or unmuted (default volume).
pub open spec fn with_speaker_mute(s: ApiSettings, m: bool) -> ApiSettings {
    ApiSettings { speaker_muted: m, speaker_volume: if m { 0 } else { SPEAKER_DEFAULT_VOLUME }, ..s }
}

pub open spec fn with_backlight(s: ApiSettings, p: u8) -> ApiSettings {
    ApiSettings { backlight_percent: p, ..s }
}

/// `GET /api/settings/display/brightness/{value}`.
pub fn brightness_handler(value: Option<&str>, settings: &mut ApiSettings) -> (r: String)
    ensures
        *final(settings) == with_brightness(*old(settings), param_bytes(value, "?")),
        r@ == "Brightness set to "@ + param_chars(value, "?"),
{
    let v = param_or(value, "?");
    match parse_u8(v) {
        Some(p) => {
            settings.backlight_percent = if p < MAX_BACKLIGHT {
                p
            } else {
                MAX_BACKLIGHT
            };
        },
        None => {},
    }
    concat("Brightness set to ", v)
}

/// A switch parameter: `on` and `off` set it, anything else toggles.
pub open spec fn switched(current: bool, value: Seq<char>) -> bool {
    if value == "on"@ {
        true
    } else if value == "off"@ {
        false
    } else {
        !current
    }
}

fn switch(current: bool, value: &str) -> (r: bool)
    ensures
        r == switched(current, value@),
{
    if str_eq(value, "on") {
        true
    } else if str_eq(value, "off") {
        false
    } else {
        !current
    }
}

fn on_off(state: bool) -> (r: &'static str)
    ensures
        r@ == if state {
            "ON"@
        } else {
            "OFF"@
        },
{
    if state {
        "ON"
    } else {
        "OFF"
    }
}

/// Toggling twice restores the switch: a parameter other than `on` and
/// `off` flips it, and flipping again gives the first state back; `on`
/// and `off` set it regardless of its state.
pub proof fn lemma_switch_twice(current: bool, value: Seq<char>)
    ensures
        (value != "on"@ && value != "off"@) ==> switched(switched(current, value), value) == current,
        value == "on"@ ==> switched(current, value),
        value == "off"@ ==> !switched(current, value),
{
    reveal_strlit("on");
    reveal_strlit("off");
    assert("off"@.len() != "on"@.len());
}

/// `GET /api/settings/power/state/{value}`: switches the power state and
/// answers `ON` or `OFF`.
pub fn power_state_handler(value: Option<&str>, settings: &mut ApiSettings) -> (r: &'static str)
    ensures
        *final(settings) == with_power(*old(settings), switched(old(settings).power_on, param_chars(value, "toggle"))),
        r@ == if final(settings).power_on {
            "ON"@
        } else {
            "OFF"@
        },
{
    let v = param_or(value, "toggle");
    settings.power_on = switch(settings.power_on, v);
    on_off(settings.power_on)
}

/// What switching the display through the API does besides the state: the
/// command sent to the display task, whether it counts as touch activity
/// (it does when the display goes on), and the answer.
#[derive(Clone, Copy, Debug)]
pub struct DisplaySwitch {
    pub command: DisplayCommand,
    pub touch_activity: bool,
    pub answer: &'static str,
}

/// `GET /api/settings/display/state/{value}`: sets the display state as
/// `desired_display` reads the value (`toggle` when there is none), sends
/// `Start` (marking touch activity) or `Stop`, and answers `ON` or `OFF`.
pub fn display_state_handler(value: Option<&str>, settings: &mut ApiSettings) -> (r: DisplaySwitch)
    ensures
        *final(settings) == with_display(*old(settings), desired_display(old(settings).display_on, param_chars(value, "toggle"))),
        r.command == if final(settings).display_on {
            DisplayCommand::Start
        } else {
            DisplayCommand::Stop
        },
        r.touch_activity == final(settings).display_on,
        r.answer@ == if final(settings).display_on {
            "ON"@
        } else {
            "OFF"@
        },
{
    let (desired, command, answer) = display_request(value, settings.display_on);
    settings.display_on = desired;
    DisplaySwitch { command, touch_activity: desired, answer }
}

/// A volume parameter: a number parsed as `u8` and capped at 100;
/// anything else keeps `current`.
pub open spec fn volume_from(current: u8, value: Seq<u8>) -> u8 {
    match parse_u8_spec(value) {
        Some(v) => if v < 100 {
            v
        } else {
            100
        },
        None => current,
    }
}

fn parse_volume(current: u8, value: &str) -> (r: u8)
    ensures
        r == volume_from(current, value.spec_bytes()),
{
    match parse_u8(value) {
        Some(v) => if v < 100 {
            v
        } else {
            100
        },
        None => current,
    }
}

/// `GET /api/settings/mic/volume/{value}`.
pub fn mic_volume_handler(value: Option<&str>, settings: &mut ApiSettings) -> (r: String)
    ensures
        *final(settings) == with_mic_volume(*old(settings), volume_from(old(settings).mic_volume, param_bytes(value, "?"))),
        r@ == "Mic volume "@ + param_chars(value, "?"),
{
    let v = param_or(value, "?");
    settings.mic_volume = parse_volume(settings.mic_volume, v);
    concat("Mic volume ", v)
}

/// `GET /api/settings/speaker/volume/{value}`.
pub fn speaker_volume_handler(value: Option<&str>, settings: &mut ApiSettings) -> (r: String)
    ensures
        *final(settings) == with_speaker_volume(*old(settings), volume_from(old(settings).speaker_volume, param_bytes(value, "?"))),
        r@ == "Speaker volume "@ + param_chars(value, "?"),
{
    let v = param_or(value, "?");
    settings.speaker_volume = parse_volume(settings.speaker_volume, v);
    concat("Speaker volume ", v)
}

/// A mute parameter: `1`, `on` and `mute` mute, `0`, `off` and `unmute`
/// unmute, anything else toggles.
pub open spec fn muted_by(current: bool, value: Seq<char>) -> bool {
    if value == "1"@ || value == "on"@ || value == "mute"@ {
        true
    } else if value == "0"@ || value == "off"@ || value == "unmute"@ {
        false
    } else {
        !current
    }
}

fn mute_switch(current: bool, value: &str) -> (r: bool)
    ensures
        r == muted_by(current, value@),
{
    if str_eq(value, "1") || str_eq(value, "on") || str_eq(value, "mute") {
        true
    } else if str_eq(value, "0") || str_eq(value, "off") || str_eq(value, "unmute") {
        false
    } else {
        !current
    }
}

fn muted_text(muted: bool) -> (r: &'static str)
    ensures
        r@ == if muted {
            "muted"@
        } else {
            "unmuted"@
        },
{
    if muted {
        "muted"
    } else {
        "unmuted"
    }
}

/// `GET /api/settings/mic/mute/{value}`: muting sets the volume to 0,
/// unmuting restores `MIC_DEFAULT_VOLUME`.
pub fn mic_mute_handler(value: Option<&str>, settings: &mut ApiSettings) -> (r: &'static str)
    ensures
        *final(settings) == with_mic_mute(*old(settings), muted_by(old(settings).mic_muted, param_chars(value, "toggle"))),
        r@ == if final(settings).mic_muted { "muted"@ } else { "unmuted"@ },
{
    let v = param_or(value, "toggle");
    let m = mute_switch(settings.mic_muted, v);
    settings.mic_muted = m;
    settings.mic_volume = if m {
        0
    } else {
        MIC_DEFAULT_VOLUME
    };
    muted_text(m)
}

/// `GET /api/settings/speaker/mute/{value}`: muting sets the volume to 0,
/// unmuting restores `SPEAKER_DEFAULT_VOLUME`.
pub fn speaker_mute_handler(value: Option<&str>, settings: &mut ApiSettings) -> (r: &'static str)
    ensures
        *final(settings) == with_speaker_mute(*old(settings), muted_by(old(settings).speaker_muted, param_chars(value, "toggle"))),
        r@ == if final(settings).speaker_muted { "muted"@ } else { "unmuted"@ },
{
    let v = param_or(value, "toggle");
    let m = mute_switch(settings.speaker_muted, v);
    settings.speaker_muted = m;
    settings.speaker_volume = if m {
        0
    } else {
        SPEAKER_DEFAULT_VOLUME
    };
    muted_text(m)
}

/// What a mute route does with its parameter, whatever the current
/// state: `0`, `off` and `unmute` always unmute (and restore the default
/// volume, 72 for the microphone and 58 for the speaker), `1`, `on` and
/// `mute` always mute (volume 0), and any other value, or none, flips the
/// current state.
pub proof fn lemma_mute_parameters(s: ApiSettings, value: Seq<char>)
    ensures
        ({
            let mic = with_mic_mute(s, muted_by(s.mic_muted, value));
            let speaker = with_speaker_mute(s, muted_by(s.speaker_muted, value));
            let unmute = value == "0"@ || value == "off"@ || value == "unmute"@;
            let mute = value == "1"@ || value == "on"@ || value == "mute"@;
            &&& unmute ==> !mic.mic_muted && mic.mic_volume == 72 && !speaker.speaker_muted
                && speaker.speaker_volume == 58
            &&& mute ==> mic.mic_muted && mic.mic_volume == 0 && speaker.speaker_muted
                && speaker.speaker_volume == 0
            &&& !unmute && !mute ==> mic.mic_muted == !s.mic_muted && speaker.speaker_muted
                == !s.speaker_muted
        }),
{
    reveal_strlit("0");
    reveal_strlit("off");
    reveal_strlit("unmute");
    reveal_strlit("1");
    reveal_strlit("on");
    reveal_strlit("mute");
    let un = seq!["0"@, "off"@, "unmute"@];
    let mu = seq!["1"@, "on"@, "mute"@];
    assert forall|i: int, j: int| 0 <= i < 3 && 0 <= j < 3 implies un[i] != mu[j] by {
        if un[i].len() == mu[j].len() {
            assert(un[i][0] != mu[j][0]);
        }
    }
    assert(un[0] == "0"@ && un[1] == "off"@ && un[2] == "unmute"@);
    assert(mu[0] == "1"@ && mu[1] == "on"@ && mu[2] == "mute"@);
}

/// Unmuting after a mute restores the default volumes, whatever they
/// were before.
pub proof fn lemma_mute_then_unmute(s: ApiSettings)
    ensures
        with_mic_mute(with_mic_mute(s, true), false).mic_volume == MIC_DEFAULT_VOLUME,
        !with_mic_mute(with_mic_mute(s, true), false).mic_muted,
        with_speaker_mute(with_speaker_mute(s, true), false).speaker_volume == SPEAKER_DEFAULT_VOLUME,
        with_mic_mute(s, true).mic_volume == 0,
        with_speaker_mute(s, true).speaker_volume == 0,
{
}

/// `GET /api/voice/detected`: backlight to 70 %.
pub fn detected_handler(settings: &mut ApiSettings) -> (r: &'static str)
    ensures
        *final(settings) == with_backlight(*old(settings), 70),
        r@ == "OK"@,
{
    settings.backlight_percent = 70;
    "OK"
}

/// `GET /api/voice/executed`: backlight off.
pub fn voice_win_handler(settings: &mut ApiSettings) -> (r: &'static str)
    ensures
        *final(settings) == with_backlight(*old(settings), 0),
        r@ == "OK"@,
{
    settings.backlight_percent = 0;
    "OK"
}

/// `GET /api/voice/failed`: backlight off.
pub fn voice_fail_handler(settings: &mut ApiSettings) -> (r: &'static str)
    ensures
        *final(settings) == with_backlight(*old(settings), 0),
        r@ == "OK"@,
{
    settings.backlight_percent = 0;
    "OK"
}

/// The canned reading that `GET /api/sensor/{value}` answers for a
/// sensor name.
pub open spec fn sensor_reading(name: Seq<char>) -> Seq<char> {
    if name == "temp"@ || name == "temperature"@ {
        "23.6"@
    } else if name == "hum"@ || name == "humidity"@ {
        "48"@
    } else if name == "battery"@ || name == "battery_level"@ || name == "battery_percentage"@ {
        "78"@
    } else if name == "battery_voltage"@ || name == "voltage"@ {
        "3.84"@
    } else if name == "occupancy"@ || name == "motion"@ || name == "presence"@ {
        "Clear"@
    } else if name == "rssi"@ || name == "wifi_signal"@ || name == "wifi"@ {
        "-54"@
    } else if name == "ip"@ {
        "192.168.1.122"@
    } else if name == "uptime"@ {
        "3d 14h"@
    } else if name == "firmware"@ || name == "version"@ {
        "v2.1.0"@
    } else {
        "unknown"@
    }
}

/// `GET /api/sensor/{value}`.
pub fn sensor_fetcher(value: Option<&str>) -> (r: &'static str)
    ensures
        r@ == sensor_reading(param_chars(value, "unknown")),
{
    let n = param_or(value, "unknown");
    if str_eq(n, "temp") || str_eq(n, "temperature") {
        "23.6"
    } else if str_eq(n, "hum") || str_eq(n, "humidity") {
        "48"
    } else if str_eq(n, "battery") || str_eq(n, "battery_level") || str_eq(n, "battery_percentage") {
        "78"
    } else if str_eq(n, "battery_voltage") || str_eq(n, "voltage") {
        "3.84"
    } else if str_eq(n, "occupancy") || str_eq(n, "motion") || str_eq(n, "presence") {
        "Clear"
    } else if str_eq(n, "rssi") || str_eq(n, "wifi_signal") || str_eq(n, "wifi") {
        "-54"
    } else if str_eq(n, "ip") {
        "192.168.1.122"
    } else if str_eq(n, "uptime") {
        "3d 14h"
    } else if str_eq(n, "firmware") || str_eq(n, "version") {
        "v2.1.0"
    } else {
        "unknown"
    }
}

/// `start` and `stop` are accepted, anything else is refused.
pub open spec fn voice_state_answer(v: Seq<char>) -> Seq<char> {
    if v == "start"@ || v == "stop"@ {
        "ok"@
    } else {
        "invalid state (use start/stop)"@
    }
}

/// `GET /api/settings/voice/state/{value}`: `start` and `stop` are
/// accepted, anything else is refused.
pub fn voice_state_handler(value: Option<&str>) -> (r: &'static str)
    ensures
        r@ == voice_state_answer(param_chars(value, "toggle")),
{
    let v = param_or(value, "toggle");
    if str_eq(v, "start") || str_eq(v, "stop") {
        "ok"
    } else {
        "invalid state (use start/stop)"
    }
}

/// The display state that `GET /api/settings/display/state/{value}` asks
/// for: `1`, `on`, `start`, `enable`, `enabled` switch on, `0`, `off`,
/// `stop`, `disable`, `disabled` switch off, anything else toggles.
pub open spec fn desired_display(current: bool, value: Seq<char>) -> bool {
    if value == "1"@ || value == "on"@ || value == "start"@ || value == "enable"@ || value
        == "enabled"@ {
        true
    } else if value == "0"@ || value == "off"@ || value == "stop"@ || value == "disable"@
        || value == "disabled"@ {
        false
    } else {
        !current
    }
}

/// What the display route does: the new display state, the command sent
/// to the display task (`Start` also counts as touch activity), and the
/// answer.
pub fn display_request(value: Option<&str>, current: bool) -> (r: (bool, DisplayCommand, &'static str))
    ensures
        r.0 == desired_display(current, param_chars(value, "toggle")),
        r.1 == if r.0 {
            DisplayCommand::Start
        } else {
            DisplayCommand::Stop
        },
        r.2@ == if r.0 {
            "ON"@
        } else {
            "OFF"@
        },
{
    let v = param_or(value, "toggle");
    let desired = if str_eq(v, "1") || str_eq(v, "on") || str_eq(v, "start") || str_eq(v, "enable")
        || str_eq(v, "enabled") {
        true
    } else if str_eq(v, "0") || str_eq(v, "off") || str_eq(v, "stop") || str_eq(v, "disable")
        || str_eq(v, "disabled") {
        false
    } else {
        !current
    };
    let cmd = if desired {
        DisplayCommand::Start
    } else {
        DisplayCommand::Stop
    };
    (desired, cmd, on_off(desired))
}


/// The lines of a text, joined with a newline between each two.
pub open spec fn joined_lines(parts: Seq<Seq<char>>) -> Seq<char>
    decreases parts.len(),
{
    if parts.len() <= 1 {
        if parts.len() == 0 { Seq::empty() } else { parts[0] }
    } else {
        joined_lines(parts.drop_last()) + "\n"@ + parts.last()
    }
}

/// The endpoints that `GET /api` lists.
pub open spec fn api_endpoints() -> Seq<Seq<char>> {
    seq!["/"@, "/api/settings/power/state/{value}"@, "/api/settings/display/state/{value}"@]
}

/// `GET /api`: the endpoints, one per line.
pub fn api_list_handler() -> (r: String)
    ensures
        r@ == joined_lines(api_endpoints()),
{
    let parts: Vec<&'static str> = vec!["/", "/api/settings/power/state/{value}", "/api/settings/display/state/{value}"];
    let ghost views: Seq<Seq<char>> = parts@.map_values(|p: &str| p@);
    let mut r = String::from_str(parts[0]);
    let mut i: usize = 1;
    while i < parts.len()
        invariant
            1 <= i <= parts@.len(),
            parts@.len() == 3,
            views == parts@.map_values(|p: &str| p@),
            r@ == joined_lines(views.take(i as int)),
        decreases parts@.len() - i,
    {
        r.append("\n");
        r.append(parts[i]);
        proof {
            assert(views.take(i as int + 1).drop_last() =~= views.take(i as int));
        }
        i = i + 1;
    }
    proof {
        assert(views.take(3) =~= views);
        assert(views =~= api_endpoints());
    }
    r
}

/// `GET /api/media/{action}`: performs the media action (`none`, which no
/// action answers to, when the route has none) and answers its text.
pub fn media_handler(action: Option<&str>, player: &mut Player, volume: &mut u8) -> (r: &'static str)
    requires
        old(player).wf(),
        *old(volume) <= 250,
    ensures
        final(player).wf(),
        (*final(player), *final(volume), r@) == action_outcome(*old(player), *old(volume), action_of(param_chars(action, "none"))),
{
    handle_action(player, volume, param_or(action, "none"))
}

} // verus!
