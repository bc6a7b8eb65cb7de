//! Core logic of the ESP32-S3-BOX-3 voice assistant firmware: URL
//! percent-encoding, calendar arithmetic, the framebuffer, the touch and
//! audio codec drivers' register logic, and the state machines that drive
//! media playback and the user interface.

pub mod api;
pub mod applications;
pub mod audio;
pub mod display;
pub mod es7210;
pub mod framebuffer;
pub mod gt911;
pub mod media;
pub mod ota;
pub mod settings;
pub mod speaker;
pub mod state;
pub mod text;
pub mod time;
pub mod url;
pub mod gui;
