//! Lyrics overlay core: the playback model, the LRC parser, the lyric-source
//! chain and the small decisions the overlay makes on every frame.

pub mod app;
pub mod domain;
pub mod hotkey;
pub mod logging;
pub mod lyrics;
pub mod media;
pub mod overlay;
pub mod sync;
pub mod text;
pub mod tray;
