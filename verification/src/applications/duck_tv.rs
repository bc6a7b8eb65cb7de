//! APPLICATIONS/DUCK_TV: browse music, movies and TV shows stored on a NAS
//! and cast them to the TV. This module holds the decisions of the TV
//! remote: the playback state machine, the volume and power toggles and the
//! spoken media command.

use vstd::prelude::*;
use super::Page;
use super::zigduck::{chars128, dir_entries, dir_get, HomeCommand};
use crate::text::{concat, str_eq};

verus! {

pub const MAX_BROWSE_ITEMS: usize = 96;

pub fn open_app() -> (r: Page)
    ensures
        r == Page::DuckTv,
{
    Page::DuckTv
}

#[derive(Clone, Copy, Debug, PartialEq, Eq, Structural)]
pub enum TvCommand {
    Play,
    Pause,
    Next,
    Prev,
    Stop,
    Clear,
    Heart,
}

#[derive(Clone, Copy, Debug, PartialEq, Eq, Structural)]
pub enum PlaybackState {
    Stopped,
    Playing,
    Paused,
}

/// The Swedish sentence that starts `name` of the given category:
/// "spela upp serien" for TV, "spela upp artisten" for Music, "spela upp
/// filmen" for Movies and "spela upp" otherwise, followed by a space and the
/// name.
pub open spec fn media_sentence(category: Seq<char>, name: Seq<char>) -> Seq<char> {
    if category == "TV"@ {
        "spela upp serien "@ + name
    } else if category == "Music"@ {
        "spela upp artisten "@ + name
    } else if category == "Movies"@ {
        "spela upp filmen "@ + name
    } else {
        "spela upp "@ + name
    }
}

/// Whether the TV is on and whether it is playing.
#[derive(Clone, Copy, Debug, PartialEq, Eq, Structural)]
pub struct TvFlags {
    pub is_on: bool,
    pub is_playing: bool,
}

// HELPER TO START MEDIA USING NATURAL LANGUAGE (Swedish)
/// Starts `name` by voice: returns the sentence for the voice backend and
/// marks the TV as on and playing.
pub fn send_media_command(category: &str, name: &str, tv: &mut TvFlags) -> (r: String)
    ensures
        r@ == media_sentence(category@, name@),
        *final(tv) == (TvFlags { is_on: true, is_playing: true }),
{
    tv.is_on = true;
    tv.is_playing = true;
    if str_eq(category, "TV") {
        concat("spela upp serien ", name)
    } else if str_eq(category, "Music") {
        concat("spela upp artisten ", name)
    } else if str_eq(category, "Movies") {
        concat("spela upp filmen ", name)
    } else {
        concat("spela upp ", name)
    }
}

/// The category being browsed (`TV`, `Movies` or `Music`), or `None`
/// before anything was browsed.
pub fn browse_category(category: &str) -> (r: Option<String>)
    ensures
        category@.len() == 0 ==> r is None,
        category@.len() > 0 ==> (r matches Some(s) && s@ == category@),
{
    if category.is_empty() {
        None
    } else {
        Some(String::from_str(category))
    }
}

/// The name of browse entry `index`, if the list has one.
pub fn browse_item_name(items: &heapless::Vec<heapless::String<128>, 96>, index: usize) -> (r: Option<heapless::String<128>>)
    ensures
        index < dir_entries(*items).len() ==> (r matches Some(s) && chars128(s) == dir_entries(*items)[index as int]),
        index >= dir_entries(*items).len() ==> r is None,
{
    dir_get(items, index)
}

/// The TV's address as the device of a media command.
fn device(tv_ip: &str) -> (r: Option<String>)
    ensures
        r matches Some(s) && s@ == tv_ip@,
{
    Some(String::from_str(tv_ip))
}

/// What one command does to the TV remote: the next playback state, the
/// command sent to the home-automation backend, and the new value of the
/// "TV is playing" flag, if it changes.
pub struct TvStep {
    pub state: PlaybackState,
    pub request: Option<HomeCommand>,
    pub is_playing: Option<bool>,
}

/// The media request of a step, without its device.
pub open spec fn request_kind(r: Option<HomeCommand>) -> Option<MediaRequestKind> {
    match r {
        Some(HomeCommand::MediaPlay(_)) => Some(MediaRequestKind::Play),
        Some(HomeCommand::MediaPause(_)) => Some(MediaRequestKind::Pause),
        Some(HomeCommand::MediaPrev(_)) => Some(MediaRequestKind::Prev),
        Some(HomeCommand::MediaNext(_)) => Some(MediaRequestKind::Next),
        _ => None,
    }
}

pub enum MediaRequestKind {
    Play,
    Pause,
    Prev,
    Next,
}

/// The TV remote's transitions. Stopped or paused: Play starts playing
/// (request Play, flag on); Prev and Next send their request and count as
/// playing; Stop stops (flag off); Pause, Clear and Heart are ignored.
/// Playing: Pause pauses (request Pause, flag off); Stop stops (flag off)
/// and sends Pause; Prev and Next send their request; Play, Clear and Heart
/// change nothing.
pub open spec fn tv_transition(state: PlaybackState, cmd: TvCommand) -> (
    PlaybackState,
    Option<MediaRequestKind>,
    Option<bool>,
) {
    match state {
        PlaybackState::Stopped | PlaybackState::Paused => match cmd {
            TvCommand::Play => (PlaybackState::Playing, Some(MediaRequestKind::Play), Some(true)),
            TvCommand::Prev => (PlaybackState::Playing, Some(MediaRequestKind::Prev), None),
            TvCommand::Next => (PlaybackState::Playing, Some(MediaRequestKind::Next), None),
            TvCommand::Stop => (PlaybackState::Stopped, None, Some(false)),
            _ => (state, None, None),
        },
        PlaybackState::Playing => match cmd {
            TvCommand::Pause => (PlaybackState::Paused, Some(MediaRequestKind::Pause), Some(false)),
            TvCommand::Stop => (PlaybackState::Stopped, Some(MediaRequestKind::Pause), Some(false)),
            TvCommand::Prev => (PlaybackState::Playing, Some(MediaRequestKind::Prev), None),
            TvCommand::Next => (PlaybackState::Playing, Some(MediaRequestKind::Next), None),
            _ => (state, None, None),
        },
    }
}

/// Stop always leaves the TV stopped with the playing flag off, whatever
/// it was doing; Clear and Heart never change the state or send anything.
pub proof fn lemma_tv_stop_and_ignored_commands(state: PlaybackState)
    ensures
        tv_transition(state, TvCommand::Stop).0 == PlaybackState::Stopped,
        tv_transition(state, TvCommand::Stop).2 == Some(false),
        tv_transition(state, TvCommand::Clear) == (state, None::<MediaRequestKind>, None::<bool>),
        tv_transition(state, TvCommand::Heart) == (state, None::<MediaRequestKind>, None::<bool>),
{
}

/// Pausing a playing TV and pressing play again resumes it: the two
/// steps send Pause then Play and end playing with the flag on.
pub proof fn lemma_tv_pause_then_play()
    ensures
        tv_transition(PlaybackState::Playing, TvCommand::Pause) == (PlaybackState::Paused, Some(MediaRequestKind::Pause), Some(false)),
        tv_transition(PlaybackState::Paused, TvCommand::Play) == (PlaybackState::Playing, Some(MediaRequestKind::Play), Some(true)),
{
}

/// Repeated commands are idempotent: Play while playing, and Pause while
/// stopped or paused, send nothing and change nothing.
pub proof fn lemma_tv_repeated_commands_send_nothing(state: PlaybackState)
    ensures
        tv_transition(PlaybackState::Playing, TvCommand::Play) == (PlaybackState::Playing, None::<MediaRequestKind>, None::<bool>),
        state != PlaybackState::Playing ==> tv_transition(state, TvCommand::Pause) == (state, None::<MediaRequestKind>, None::<bool>),
{
}

/// Previous and next always skip the way they say, in every state: the
/// step that `Prev` makes sends a `MediaPrev` request and the one that
/// `Next` makes sends a `MediaNext` request, and both leave the TV playing.
/// Stated over any request that `tv_step` may return for them (its request
/// has the kind that `tv_transition` gives).
pub proof fn lemma_tv_prev_and_next(state: PlaybackState, request: Option<HomeCommand>)
    ensures
        request_kind(request) == tv_transition(state, TvCommand::Prev).1 ==> request matches Some(
            HomeCommand::MediaPrev(_),
        ),
        request_kind(request) == tv_transition(state, TvCommand::Next).1 ==> request matches Some(
            HomeCommand::MediaNext(_),
        ),
        tv_transition(state, TvCommand::Prev).0 == PlaybackState::Playing,
        tv_transition(state, TvCommand::Next).0 == PlaybackState::Playing,
{
}

/// One step of the TV task: the state after `cmd`, and what it sends and
/// records. Every request names the TV at `tv_ip`.
pub fn tv_step(state: PlaybackState, cmd: TvCommand, tv_ip: &str) -> (r: TvStep)
    ensures
        (r.state, request_kind(r.request), r.is_playing) == tv_transition(state, cmd),
        r.request is None <==> tv_transition(state, cmd).1 is None,
        r.request matches Some(c) ==> c.device() == Some(tv_ip@),
{
    match state {
        PlaybackState::Stopped | PlaybackState::Paused => match cmd {
            TvCommand::Play => TvStep {
                state: PlaybackState::Playing,
                request: Some(HomeCommand::MediaPlay(device(tv_ip))),
                is_playing: Some(true),
            },
            TvCommand::Prev => TvStep {
                state: PlaybackState::Playing,
                request: Some(HomeCommand::MediaPrev(device(tv_ip))),
                is_playing: None,
            },
            TvCommand::Next => TvStep {
                state: PlaybackState::Playing,
                request: Some(HomeCommand::MediaNext(device(tv_ip))),
                is_playing: None,
            },
            TvCommand::Stop => TvStep {
                state: PlaybackState::Stopped,
                request: None,
                is_playing: Some(false),
            },
            _ => TvStep { state, request: None, is_playing: None },
        },
        PlaybackState::Playing => match cmd {
            TvCommand::Pause => TvStep {
                state: PlaybackState::Paused,
                request: Some(HomeCommand::MediaPause(device(tv_ip))),
                is_playing: Some(false),
            },
            TvCommand::Stop => TvStep {
                state: PlaybackState::Stopped,
                request: Some(HomeCommand::MediaPause(device(tv_ip))),
                is_playing: Some(false),
            },
            TvCommand::Prev => TvStep {
                state: PlaybackState::Playing,
                request: Some(HomeCommand::MediaPrev(device(tv_ip))),
                is_playing: None,
            },
            TvCommand::Next => TvStep {
                state: PlaybackState::Playing,
                request: Some(HomeCommand::MediaNext(device(tv_ip))),
                is_playing: None,
            },
            _ => TvStep { state, request: None, is_playing: None },
        },
    }
}

// INCREASE VOLUME (PUSH UPPER RIGHT BUTTON WHILE IN THE APP)
/// The new TV volume (up by 5, at most 90) and the request that raises it.
pub fn volume_up(current: u8, tv_ip: &str) -> (r: (u8, HomeCommand))
    requires
        current <= 250,
    ensures
        r.0 == if current + 5 < 90 {
            current + 5
        } else {
            90
        },
        r.1 matches HomeCommand::MediaVolumeUp(d) && d matches Some(s) && s@ == tv_ip@,
{
    let sum = current + 5;
    let new = if sum < 90 {
        sum
    } else {
        90
    };  // +5 STEP SIZE
    (new, HomeCommand::MediaVolumeUp(device(tv_ip)))
}

// DECREASE VOLUME (PUSH LOWER RIGHT BUTTON WHILE IN THE APP)
/// The request that lowers the TV volume; the stored volume is left as it
/// is.
pub fn volume_down(tv_ip: &str) -> (r: HomeCommand)
    ensures
        r matches HomeCommand::MediaVolumeDown(d) && d matches Some(s) && s@ == tv_ip@,
{
    HomeCommand::MediaVolumeDown(device(tv_ip))
}

// POWER ON/OFF
/// Toggles the TV's power: the request to send and the new "TV is on"
/// flag.
pub fn power(is_on: bool, tv_ip: &str) -> (r: (HomeCommand, bool))
    ensures
        r.1 == !is_on,
        is_on ==> (r.0 matches HomeCommand::MediaPowerOff(d) && d matches Some(s) && s@ == tv_ip@),
        !is_on ==> (r.0 matches HomeCommand::MediaPowerOn(d) && d matches Some(s) && s@ == tv_ip@),
{
    if is_on {
        (HomeCommand::MediaPowerOff(device(tv_ip)), false)
    } else {
        (HomeCommand::MediaPowerOn(device(tv_ip)), true)
    }
}

// PLAY/PAUSE
/// The command that the play/pause button sends: Pause while playing,
/// else Play.
pub fn play_pause(is_playing: bool) -> (r: TvCommand)
    ensures
        r == if is_playing {
            TvCommand::Pause
        } else {
            TvCommand::Play
        },
{
    if is_playing {
        TvCommand::Pause
    } else {
        TvCommand::Play
    }
}

} // verus!
