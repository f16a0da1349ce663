//! Talking to the system media session: the commands sent to it and the
//! conversion of what platform backends report into `NowPlaying`.

pub mod mediaremote;
pub mod windows;

use vstd::prelude::*;

use crate::domain::NowPlaying;

verus! {

/// A transport command sent to the active media session.
#[derive(Clone, Copy, Debug, PartialEq, Eq, Structural)]
pub enum MediaCommand {
    TogglePlayPause,
    Next,
    Previous,
    /// Jump to an absolute position in the current track. Only sent when the
    /// source reports `NowPlaying::can_seek`.
    Seek { position_ms: u64 },
}

/// Why a media backend failed to talk to the platform's media API.
pub struct MediaError {
    pub message: String,
}

/// A platform's media-session backend.
pub trait MediaReader: Send {
    /// The current session, or `None` when nothing is playing.
    fn poll(&mut self) -> Result<Option<NowPlaying>, MediaError>;

    /// Best effort: a source may legitimately refuse a command, which is not
    /// an error here. `Err` is reserved for failing to talk to the platform's
    /// media API.
    fn execute(&mut self, command: MediaCommand) -> Result<(), MediaError>;
}

} // verus!
