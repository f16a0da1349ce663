use vstd::prelude::*;

verus! {

/// One snapshot of the active media session.
///
/// `received_at` is the moment at which `position_ms` was current, expressed in
/// nanoseconds on the caller's monotonic clock (any fixed origin will do, as
/// long as every timestamp handed to the library uses the same one).
#[derive(Clone, Debug)]
pub struct NowPlaying {
    pub title: String,
    pub artist: String,
    pub duration_ms: u64,
    pub is_playing: bool,
    pub position_ms: u64,
    pub received_at: u64,
    /// What the source says it will actually honour. Not every player supports
    /// every transport command, so the overlay greys out what would otherwise
    /// be buttons that silently do nothing.
    pub can_play_pause: bool,
    pub can_next: bool,
    pub can_previous: bool,
    /// Whether the source honours a jump to an arbitrary position. Kept apart
    /// from the transport flags above: a live stream accepts next/previous but
    /// has nowhere to scrub to.
    pub can_seek: bool,
}

/// The mathematical content of a `NowPlaying`.
pub struct NowPlayingView {
    pub title: Seq<char>,
    pub artist: Seq<char>,
    pub duration_ms: u64,
    pub is_playing: bool,
    pub position_ms: u64,
    pub received_at: u64,
    pub can_play_pause: bool,
    pub can_next: bool,
    pub can_previous: bool,
    pub can_seek: bool,
}

impl View for NowPlaying {
    type V = NowPlayingView;

    open spec fn view(&self) -> NowPlayingView {
        NowPlayingView {
            title: self.title@,
            artist: self.artist@,
            duration_ms: self.duration_ms,
            is_playing: self.is_playing,
            position_ms: self.position_ms,
            received_at: self.received_at,
            can_play_pause: self.can_play_pause,
            can_next: self.can_next,
            can_previous: self.can_previous,
            can_seek: self.can_seek,
        }
    }
}

impl NowPlaying {
    /// The full identity triple of the track: title, artist and reported
    /// duration.
    pub fn track_id(&self) -> (r: (&str, &str, u64))
        ensures
            r.0@ == self.title@,
            r.1@ == self.artist@,
            r.2 == self.duration_ms,
    {
        (self.title.as_str(), self.artist.as_str(), self.duration_ms)
    }
}

} // verus!
