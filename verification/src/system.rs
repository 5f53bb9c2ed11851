//! Backend-facing state and parsers: availability tracking and the
//! decision logic around each external tool's output.

pub mod audio;
pub mod audio_switch;
pub mod availability;
pub mod brightness;
pub mod desktop;
pub mod now_playing;

use vstd::prelude::*;

verus! {

/// A backend call that failed: the message carried up for logging.
#[derive(Debug)]
pub struct BackendError {
    pub message: String,
}

} // verus!
