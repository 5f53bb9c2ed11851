//! The configuration model: what the settings file describes once it is
//! decoded. Locating, reading and decoding the file happen outside the
//! library; the values arrive here as plain data.

use vstd::prelude::*;

use crate::controls::audio_toggle::AudioToggleConfig;

verus! {

/// One configured launcher button: its index and the desktop-entry file
/// it activates.
#[derive(Debug, Clone)]
pub struct LauncherButtonConfig {
    pub button_index: u8,
    pub desktop_file: String,
}

/// Everything the settings file configures, and where it was found.
#[derive(Debug, Clone)]
pub struct StreamDeckSettings {
    pub path: String,
    pub audio_toggle: Option<AudioToggleConfig>,
    pub launchers: Vec<LauncherButtonConfig>,
    pub now_playing_player: Option<String>,
}

} // verus!
