//! The local media player: a fixed playlist, the playback state machine
//! and the speaker volume steps, driven by the HTTP API's media actions.

use vstd::prelude::*;
use crate::text::str_eq;

verus! {

#[derive(Clone, Copy, PartialEq, Eq, Structural, Debug)]
pub enum PlaybackState {
    Stopped,
    Playing,
    Paused,
}

#[derive(Clone)]
pub struct Track {
    pub id: u32,
    pub title: &'static str,
    pub file_path: &'static str,
}

pub const PLAYLIST_LEN: usize = 3;

/// The playlist.
pub fn playlist() -> (r: Vec<Track>)
    ensures
        r@.len() == PLAYLIST_LEN,
        r@[0].id == 1 && r@[1].id == 2 && r@[2].id == 3,
        r@[0].title@ == "Song One"@ && r@[0].file_path@ == "/music/one.mp3"@,
        r@[1].title@ == "Song Two"@ && r@[1].file_path@ == "/music/two.mp3"@,
        r@[2].title@ == "Song Three"@ && r@[2].file_path@ == "/music/three.mp3"@,
{
    vec![
        Track { id: 1, title: "Song One", file_path: "/music/one.mp3" },
        Track { id: 2, title: "Song Two", file_path: "/music/two.mp3" },
        Track { id: 3, title: "Song Three", file_path: "/music/three.mp3" },
    ]
}

/// The playlist position after `next`: one on, wrapping to the first.
pub open spec fn next_index(i: int) -> int {
    (i + 1) % PLAYLIST_LEN as int
}

/// The playlist position after `prev`: one back, wrapping to the last.
pub open spec fn prev_index(i: int) -> int {
    if i == 0 {
        PLAYLIST_LEN - 1
    } else {
        i - 1
    }
}

/// The state after `pause`: playing and paused swap, stopped stays.
pub open spec fn paused_state(s: PlaybackState) -> PlaybackState {
    match s {
        PlaybackState::Playing => PlaybackState::Paused,
        PlaybackState::Paused => PlaybackState::Playing,
        PlaybackState::Stopped => PlaybackState::Stopped,
    }
}

/// `next` and `prev` undo each other at every playlist position.
pub proof fn lemma_next_prev_inverse(i: int)
    requires
        0 <= i < PLAYLIST_LEN,
    ensures
        prev_index(next_index(i)) == i,
        next_index(prev_index(i)) == i,
        0 <= next_index(i) < PLAYLIST_LEN,
        0 <= prev_index(i) < PLAYLIST_LEN,
{
}

/// Pausing twice leaves the state as it was.
pub proof fn lemma_pause_twice(s: PlaybackState)
    ensures
        paused_state(paused_state(s)) == s,
{
}

/// Stepping through the whole playlist with `next` comes back to the start.
pub proof fn lemma_next_cycle(i: int)
    requires
        0 <= i < PLAYLIST_LEN,
    ensures
        next_index(next_index(next_index(i))) == i,
{
}

/// The player: its state and the playlist position.
pub struct Player {
    pub state: PlaybackState,
    pub current_track_index: usize,
}

impl Player {
    /// The position is within the playlist.
    pub open spec fn wf(&self) -> bool {
        self.current_track_index < PLAYLIST_LEN
    }

    /// A stopped player at the first track.
    pub fn new() -> (r: Self)
        ensures
            r.wf(),
            r.state == PlaybackState::Stopped,
            r.current_track_index == 0,
    {
        Player { state: PlaybackState::Stopped, current_track_index: 0 }
    }

    /// Starts the current track (the audio output never refuses it).
    pub fn play(&mut self) -> (r: Result<(), &'static str>)
        requires
            old(self).wf(),
        ensures
            final(self).wf(),
            r is Ok,
            final(self).state == PlaybackState::Playing,
            final(self).current_track_index == old(self).current_track_index,
    {
        self.state = PlaybackState::Playing;
        Ok(())
    }

    /// Pause toggles between playing and paused; a stopped player stays
    /// stopped.
    pub fn pause(&mut self)
        requires
            old(self).wf(),
        ensures
            final(self).wf(),
            final(self).current_track_index == old(self).current_track_index,
            final(self).state == paused_state(old(self).state),
    {
        match self.state {
            PlaybackState::Playing => {
                self.state = PlaybackState::Paused;
            },
            PlaybackState::Paused => {
                self.state = PlaybackState::Playing;
            },
            _ => (),
        }
    }

    pub fn stop(&mut self)
        requires
            old(self).wf(),
        ensures
            final(self).wf(),
            final(self).current_track_index == old(self).current_track_index,
            final(self).state == PlaybackState::Stopped,
    {
        if self.state != PlaybackState::Stopped {
            self.state = PlaybackState::Stopped;
        }
    }

    /// Moves to the next track, wrapping to the first; a playing player
    /// starts it.
    pub fn next(&mut self)
        requires
            old(self).wf(),
        ensures
            final(self).wf(),
            final(self).current_track_index == next_index(old(self).current_track_index as int),
            final(self).state == old(self).state,
    {
        let new_index = (self.current_track_index + 1) % PLAYLIST_LEN;
        self.current_track_index = new_index;
        if self.state == PlaybackState::Playing {
            let _ = self.play();
        }
    }

    /// Moves to the previous track, wrapping to the last; a playing player
    /// starts it.
    pub fn prev(&mut self)
        requires
            old(self).wf(),
        ensures
            final(self).wf(),
            final(self).current_track_index == prev_index(old(self).current_track_index as int),
            final(self).state == old(self).state,
    {
        let new_index = if self.current_track_index == 0 {
            PLAYLIST_LEN - 1
        } else {
            self.current_track_index - 1
        };
        self.current_track_index = new_index;
        if self.state == PlaybackState::Playing {
            let _ = self.play();
        }
    }

    /// The player's state as text.
    pub fn get_status_text(&self) -> (r: &'static str)
        ensures
            r@ == status_text(self.state),
    {
        match self.state {
            PlaybackState::Playing => "Playing",
            PlaybackState::Paused => "Paused",
            PlaybackState::Stopped => "Stopped",
        }
    }
}

pub open spec fn status_text(state: PlaybackState) -> Seq<char> {
    match state {
        PlaybackState::Playing => "Playing"@,
        PlaybackState::Paused => "Paused"@,
        PlaybackState::Stopped => "Stopped"@,
    }
}

/// Volume up by 5, at most 100.
pub fn volume_up(current: u8) -> (r: u8)
    requires
        current <= 250,
    ensures
        r == if current + 5 < 100 {
            current + 5
        } else {
            100
        },
{
    let sum = current + 5;
    if sum < 100 {
        sum
    } else {
        100
    }
}

/// Volume down by 5, at least 0.
pub fn volume_down(current: u8) -> (r: u8)
    ensures
        r == if current >= 5 {
            current - 5
        } else {
            0
        },
{
    current.saturating_sub(5)
}

/// The media actions of the HTTP API.
pub enum MediaAction {
    Play,
    Pause,
    Next,
    Prev,
    Stop,
    Status,
    VolumeUp,
    VolumeDown,
    Unknown,
}

pub open spec fn action_of(action: Seq<char>) -> MediaAction {
    if action == "play"@ {
        MediaAction::Play
    } else if action == "pause"@ {
        MediaAction::Pause
    } else if action == "next"@ {
        MediaAction::Next
    } else if action == "prev"@ {
        MediaAction::Prev
    } else if action == "stop"@ {
        MediaAction::Stop
    } else if action == "status"@ {
        MediaAction::Status
    } else if action == "volume_up"@ {
        MediaAction::VolumeUp
    } else if action == "volume_down"@ {
        MediaAction::VolumeDown
    } else {
        MediaAction::Unknown
    }
}

/// What a media action does: the player and the speaker volume after it,
/// and the answer's text.
pub open spec fn action_outcome(p: Player, volume: u8, action: MediaAction) -> (Player, u8, Seq<char>) {
    match action {
        MediaAction::Play => (Player { state: PlaybackState::Playing, ..p }, volume, "Playing"@),
        MediaAction::Pause => (Player { state: paused_state(p.state), ..p }, volume, "Paused"@),
        MediaAction::Next => (
            Player { current_track_index: next_index(p.current_track_index as int) as usize, ..p },
            volume,
            "Next track"@,
        ),
        MediaAction::Prev => (
            Player { current_track_index: prev_index(p.current_track_index as int) as usize, ..p },
            volume,
            "Previous track"@,
        ),
        MediaAction::Stop => (Player { state: PlaybackState::Stopped, ..p }, volume, "Stopped"@),
        MediaAction::Status => (p, volume, status_text(p.state)),
        MediaAction::VolumeUp => (p, (if volume + 5 < 100 { volume + 5 } else { 100 }) as u8, "Volume up"@),
        MediaAction::VolumeDown => (p, (if volume >= 5 { volume - 5 } else { 0 }) as u8, "Volume down"@),
        MediaAction::Unknown => (p, volume, "Unknown action"@),
    }
}

/// Performs a media action of the HTTP API on the player and the speaker
/// volume, and returns the answer's text.
pub fn handle_action(player: &mut Player, volume: &mut u8, action: &str) -> (r: &'static str)
    requires
        old(player).wf(),
        *old(volume) <= 250,
    ensures
        final(player).wf(),
        (*final(player), *final(volume), r@) == action_outcome(*old(player), *old(volume), action_of(action@)),
{
    proof {
        reveal_strlit("Playing");
        reveal_strlit("Paused");
        reveal_strlit("Stopped");
    }
    if str_eq(action, "play") {
        let _ = player.play();
        "Playing"
    } else if str_eq(action, "pause") {
        player.pause();
        "Paused"
    } else if str_eq(action, "next") {
        player.next();
        "Next track"
    } else if str_eq(action, "prev") {
        player.prev();
        "Previous track"
    } else if str_eq(action, "stop") {
        player.stop();
        "Stopped"
    } else if str_eq(action, "status") {
        player.get_status_text()
    } else if str_eq(action, "volume_up") {
        *volume = volume_up(*volume);
        "Volume up"
    } else if str_eq(action, "volume_down") {
        *volume = volume_down(*volume);
        "Volume down"
    } else {
        "Unknown action"
    }
}

} // verus!
