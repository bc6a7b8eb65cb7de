//! Shared definitions of the firmware's state: panel geometry, the display
//! and media command codes.

use vstd::prelude::*;

verus! {

pub const LCD_WIDTH: u16 = 320;

pub const LCD_HEIGHT: u16 = 240;


/// Commands of the display task.
#[derive(Debug, Clone, Copy, PartialEq, Eq, Structural)]
pub enum DisplayCommand {
    Start,
    Stop,
}

/// Media buttons, as stored in the media command cell (0-5).
#[derive(Clone, Copy, Debug, PartialEq, Eq, Structural)]
pub enum MediaCommand {
    NoCommand,
    Prev,
    PlayPause,
    Next,
    Heart,
    Clear,
}

/// The command a stored code stands for: 1-5 name the buttons, every
/// other code means no command.
pub open spec fn media_command_of(val: u8) -> MediaCommand {
    if val == 1 {
        MediaCommand::Prev
    } else if val == 2 {
        MediaCommand::PlayPause
    } else if val == 3 {
        MediaCommand::Next
    } else if val == 4 {
        MediaCommand::Heart
    } else if val == 5 {
        MediaCommand::Clear
    } else {
        MediaCommand::NoCommand
    }
}

impl MediaCommand {
    /// The code under which the command is stored.
    pub open spec fn spec_code(self) -> u8 {
        match self {
            MediaCommand::NoCommand => 0,
            MediaCommand::Prev => 1,
            MediaCommand::PlayPause => 2,
            MediaCommand::Next => 3,
            MediaCommand::Heart => 4,
            MediaCommand::Clear => 5,
        }
    }

    #[verifier::when_used_as_spec(spec_code)]
    pub fn code(self) -> (r: u8)
        ensures
            r == self.spec_code(),
    {
        match self {
            MediaCommand::NoCommand => 0,
            MediaCommand::Prev => 1,
            MediaCommand::PlayPause => 2,
            MediaCommand::Next => 3,
            MediaCommand::Heart => 4,
            MediaCommand::Clear => 5,
        }
    }
}

impl From<u8> for MediaCommand {
    fn from(val: u8) -> (r: Self) {
        match val {
            1 => MediaCommand::Prev,
            2 => MediaCommand::PlayPause,
            3 => MediaCommand::Next,
            4 => MediaCommand::Heart,
            5 => MediaCommand::Clear,
            _ => MediaCommand::NoCommand,
        }
    }
}

impl vstd::std_specs::convert::FromSpecImpl<u8> for MediaCommand {
    open spec fn obeys_from_spec() -> bool {
        true
    }

    open spec fn from_spec(val: u8) -> MediaCommand {
        media_command_of(val)
    }
}

/// Storing a command and reading it back gives the same command.
pub proof fn lemma_media_command_code_roundtrip(cmd: MediaCommand)
    ensures
        media_command_of(cmd.spec_code()) == cmd,
{
}

} // verus!
