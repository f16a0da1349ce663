//! The system-wide Now Playing session as reported by the `media-control`
//! command-line tool, one JSON payload per change.

use vstd::prelude::*;

use crate::domain::NowPlaying;
use crate::text::{trim, trimmed};

verus! {

/// Builds the snapshot for one `media-control` payload, given its fields:
/// `title` and `artist` when present as strings, `playing` when present as a
/// boolean, and the duration and elapsed time already converted to
/// milliseconds (zero when absent). A payload without a non-blank title or
/// without the playing flag describes no session. The tool's transport
/// commands cover play/pause, next and previous; it offers no seeking here.
pub fn now_playing_from_payload(
    title: Option<String>,
    playing: Option<bool>,
    artist: Option<String>,
    duration_ms: u64,
    position_ms: u64,
    received_at: u64,
) -> (r: Option<NowPlaying>)
    ensures
        r is Some <==> (title matches Some(t) && trim(t@).len() > 0 && playing is Some),
        r matches Some(np) ==> {
            &&& np.title@ == title->0@
            &&& np.artist@ == match artist {
                Some(a) => a@,
                None => Seq::empty(),
            }
            &&& np.is_playing == playing->0
            &&& np.duration_ms == duration_ms
            &&& np.position_ms == position_ms
            &&& np.received_at == received_at
            &&& np.can_play_pause && np.can_next && np.can_previous
            &&& !np.can_seek
        },
{
    let title = match title {
        Some(t) => t,
        None => return None,
    };
    if trimmed(title.as_str()).as_str().is_empty() {
        return None;
    }
    let is_playing = match playing {
        Some(p) => p,
        None => return None,
    };
    let artist = match artist {
        Some(a) => a,
        None => String::new(),
    };
    Some(
        NowPlaying {
            title,
            artist,
            duration_ms,
            is_playing,
            position_ms,
            received_at,
            can_play_pause: true,
            can_next: true,
            can_previous: true,
            can_seek: false,
        },
    )
}

} // verus!
