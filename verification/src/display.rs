//! The display task's decisions: when the panel turns on and off, when the
//! backlight changes, and when a page must be drawn again. The task itself
//! waits for commands and timers and performs what these functions decide.

use vstd::prelude::*;
use crate::state::DisplayCommand;

verus! {

/// Milliseconds between two passes of the display loop.
pub const DISPLAY_TICK_MS: u64 = 200;

/// The display task's state: whether the panel is on, the backlight duty
/// last set, when the panel turns off unless touched, and the page drawn
/// last.
#[derive(Clone, Copy, PartialEq, Eq, Structural, Debug)]
pub struct DisplayController {
    pub on: bool,
    pub current_brightness: u8,
    pub deadline_ms: u64,
    pub timeout_ms: u64,
    pub last_page: Option<u8>,
}

/// What one pass of the loop asks of the hardware.
#[derive(Clone, Copy, PartialEq, Eq, Structural, Debug)]
pub struct DisplayActions {
    /// Backlight duty to set.
    pub set_duty: Option<u8>,
    /// Clear the touch-activity flag.
    pub clear_touch: bool,
    /// Draw the current page again.
    pub redraw: bool,
}

impl DisplayController {
    /// The panel starts off, with the backlight at 0.
    pub fn new() -> (r: Self)
        ensures
            !r.on,
            r.current_brightness == 0,
            r.last_page is None,
    {
        DisplayController { on: false, current_brightness: 0, deadline_ms: 0, timeout_ms: 0, last_page: None }
    }

    /// A command while the panel is off: `Start` turns it on at
    /// `brightness`, to stay on for `timeout_secs` from `now_ms` with no page
    /// drawn yet, and returns the duty to set; `Stop` changes nothing.
    pub fn command_while_off(&mut self, cmd: DisplayCommand, brightness: u8, timeout_secs: u32, now_ms: u64) -> (r: Option<u8>)
        requires
            !old(self).on,
            now_ms + timeout_secs * 1000 <= u64::MAX,
        ensures
            cmd == DisplayCommand::Stop ==> r is None && *final(self) == *old(self),
            cmd == DisplayCommand::Start ==> r == Some(brightness) && final(self).on
                && final(self).current_brightness == brightness && final(self).timeout_ms
                == timeout_secs * 1000 && final(self).deadline_ms == now_ms + timeout_secs * 1000
                && final(self).last_page is None,
    {
        match cmd {
            DisplayCommand::Start => {
                let timeout_ms = (timeout_secs as u64) * 1000;
                self.on = true;
                self.current_brightness = brightness;
                self.timeout_ms = timeout_ms;
                self.deadline_ms = now_ms + timeout_ms;
                self.last_page = None;
                Some(brightness)
            },
            DisplayCommand::Stop => None,
        }
    }

    fn turn_off(&mut self)
        ensures
            !final(self).on,
            final(self).current_brightness == 0,
            final(self).deadline_ms == old(self).deadline_ms,
            final(self).timeout_ms == old(self).timeout_ms,
            final(self).last_page == old(self).last_page,
    {
        self.on = false;
        self.current_brightness = 0;
    }

    /// One pass of the loop while on, before it waits: a pending `Stop`
    /// turns the panel off (duty 0) and keeps the timeout, the deadline and
    /// the last page; otherwise touch activity pushes the
    /// deadline `timeout` past `now_ms` and clears the flag, a changed
    /// brightness is applied, and a page other than the last drawn one is
    /// drawn.
    pub fn tick(&mut self, stop_pending: bool, touch: bool, desired_brightness: u8, page: u8, now_ms: u64) -> (r: DisplayActions)
        requires
            old(self).on,
            now_ms + old(self).timeout_ms <= u64::MAX,
        ensures
            stop_pending ==> (r == (DisplayActions { set_duty: Some(0u8), clear_touch: false, redraw: false })),
            stop_pending ==> *final(self) == (DisplayController { on: false, current_brightness: 0, ..*old(self) }),
            !stop_pending ==> final(self).on && final(self).timeout_ms == old(self).timeout_ms,
            !stop_pending ==> final(self).deadline_ms == (if touch {
                now_ms + old(self).timeout_ms
            } else {
                old(self).deadline_ms as int
            }),
            !stop_pending ==> final(self).current_brightness == desired_brightness,
            !stop_pending ==> final(self).last_page == Some(page),
            !stop_pending ==> r.clear_touch == touch,
            !stop_pending ==> r.set_duty == (if desired_brightness != old(self).current_brightness {
                Some(desired_brightness)
            } else {
                None
            }),
            !stop_pending ==> r.redraw == (old(self).last_page != Some(page)),
    {
        if stop_pending {
            self.turn_off();
            return DisplayActions { set_duty: Some(0), clear_touch: false, redraw: false };
        }
        if touch {
            self.deadline_ms = now_ms + self.timeout_ms;
        }
        let set_duty = if desired_brightness != self.current_brightness {
            self.current_brightness = desired_brightness;
            Some(desired_brightness)
        } else {
            None
        };
        let redraw = match self.last_page {
            Some(p) => p != page,
            None => true,
        };
        self.last_page = Some(page);
        DisplayActions { set_duty, clear_touch: touch, redraw }
    }

    /// After the wait: a `Stop` that arrived meanwhile, or reaching the
    /// deadline, turns the panel off; returns whether it did (the duty is
    /// then 0).
    pub fn after_wait(&mut self, stop_received: bool, now_ms: u64) -> (r: bool)
        requires
            old(self).on,
        ensures
            r == (stop_received || now_ms >= old(self).deadline_ms),
            r ==> *final(self) == (DisplayController { on: false, current_brightness: 0, ..*old(self) }),
            !r ==> *final(self) == *old(self),
    {
        if stop_received || now_ms >= self.deadline_ms {
            self.turn_off();
            true
        } else {
            false
        }
    }
}

} // verus!
