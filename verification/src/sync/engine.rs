use vstd::prelude::*;

use crate::domain::{NowPlaying, NowPlayingView};
use crate::lyrics::{lines_view, LyricLine, LyricLineView};

verus! {

/// A fresh poll whose position differs from the interpolated guess by more than
/// this is treated as a seek (snap) rather than ordinary drift (ease).
pub const SEEK_THRESHOLD_MS: u64 = 1000;

/// How many consecutive polls that predate an issued seek may be discarded
/// before the engine trusts the source again. Without a bound, a source whose
/// reported timestamp never advances would have every poll after a seek
/// discarded for the rest of the track.
pub const MAX_STALE_POLLS_AFTER_SEEK: u8 = 3;

/// Nanoseconds per millisecond on the monotonic clock.
pub const NANOS_PER_MS: u64 = 1_000_000;

/// Whole milliseconds elapsed from `from` to `to` (nanosecond timestamps),
/// or zero when `to` is not later than `from`.
pub open spec fn elapsed_ms(from: u64, to: u64) -> u64 {
    if to >= from {
        ((to - from) / (NANOS_PER_MS as int)) as u64
    } else {
        0
    }
}

/// `a + b`, saturating at `u64::MAX`.
pub open spec fn saturating_sum(a: u64, b: u64) -> u64 {
    if a + b > u64::MAX {
        u64::MAX
    } else {
        (a + b) as u64
    }
}

/// A duration of zero means "unknown", so it never caps a position.
pub open spec fn cap_to_duration(duration_ms: u64, position_ms: u64) -> u64 {
    if duration_ms > 0 && position_ms > duration_ms {
        duration_ms
    } else {
        position_ms
    }
}

/// The nearest integer to `guess + (reported - guess) / 5`: a fifth of the
/// drift is corrected per poll. (The exact value is never halfway between two
/// integers, so "nearest" is unambiguous.)
pub open spec fn eased(guess: u64, reported: u64) -> u64 {
    ((4 * guess + reported + 2) / 5) as u64
}

/// Whether a reported position is far enough from the guess to count as a seek.
pub open spec fn is_jump(guess: u64, reported: u64) -> bool {
    reported - guess > SEEK_THRESHOLD_MS || guess - reported > SEEK_THRESHOLD_MS
}

/// The baseline a same-track poll establishes: snap on a jump, ease otherwise.
pub open spec fn settled(guess: u64, reported: u64) -> u64 {
    if is_jump(guess, reported) {
        reported
    } else {
        eased(guess, reported)
    }
}

/// The index of the last line whose start time is at or before `pos`.
pub open spec fn active_index(lines: Seq<LyricLineView>, pos: u64) -> Option<int>
    decreases lines.len(),
{
    if lines.len() == 0 {
        None
    } else if lines.last().time_ms <= pos {
        Some(lines.len() - 1)
    } else {
        active_index(lines.drop_last(), pos)
    }
}

/// The text of the line after the active one (the first line when none is
/// active yet), or empty past the last line.
pub open spec fn upcoming_text(lines: Seq<LyricLineView>, active: Option<int>) -> Seq<char> {
    let next = match active {
        Some(i) => i + 1,
        None => 0,
    };
    if next < lines.len() {
        lines[next].text
    } else {
        Seq::empty()
    }
}

/// The mathematical state of a `SyncEngine`.
pub struct EngineState {
    pub lines: Seq<LyricLineView>,
    pub current_track: Option<(Seq<char>, Seq<char>, u64)>,
    pub last_poll: Option<NowPlayingView>,
    pub baseline_ms: u64,
    pub upcoming_line: Seq<char>,
    pub seek_at: Option<u64>,
    pub stale_polls_after_seek: u8,
}

impl EngineState {
    /// The state of a fresh engine.
    pub open spec fn initial() -> EngineState {
        EngineState {
            lines: Seq::empty(),
            current_track: None,
            last_poll: None,
            baseline_ms: 0,
            upcoming_line: Seq::empty(),
            seek_at: None,
            stale_polls_after_seek: 0,
        }
    }

    /// The estimated playback position at `now`: the baseline, advanced by the
    /// wall-clock time since the last poll's timestamp while playing, capped by
    /// a known duration.
    pub open spec fn interpolated(self, now: u64) -> u64 {
        match self.last_poll {
            None => self.baseline_ms,
            Some(last) => cap_to_duration(
                last.duration_ms,
                if last.is_playing {
                    saturating_sum(self.baseline_ms, elapsed_ms(last.received_at, now))
                } else {
                    self.baseline_ms
                },
            ),
        }
    }

    /// Track identity is title and artist only: some sources report a
    /// duration that jitters by a few milliseconds from poll to poll.
    pub open spec fn track_changed(self, np: NowPlayingView) -> bool {
        match self.current_track {
            Some(t) => t.0 != np.title || t.1 != np.artist,
            None => true,
        }
    }

    /// Whether `np` was captured before a locally issued seek that is still
    /// within its bounded grace period.
    pub open spec fn stale_after_seek(self, np: NowPlayingView) -> bool {
        &&& self.stale_polls_after_seek < MAX_STALE_POLLS_AFTER_SEEK
        &&& self.seek_at matches Some(t) && np.received_at < t
    }

    /// The state after a poll.
    pub open spec fn poll(self, np: NowPlayingView) -> EngineState {
        if !self.track_changed(np) && self.stale_after_seek(np) {
            // Everything but the timeline is taken from the stale poll.
            let received_at = match self.last_poll {
                Some(last) => last.received_at,
                None => np.received_at,
            };
            EngineState {
                last_poll: Some(NowPlayingView { received_at, ..np }),
                stale_polls_after_seek: (self.stale_polls_after_seek + 1) as u8,
                ..self
            }
        } else {
            let baseline_ms = if self.track_changed(np) {
                np.position_ms
            } else if np.duration_ms == 0 {
                // A source with no position of its own: keep the local estimate.
                self.interpolated(np.received_at)
            } else {
                settled(self.interpolated(np.received_at), np.position_ms)
            };
            EngineState {
                current_track: if self.track_changed(np) {
                    Some((np.title, np.artist, np.duration_ms))
                } else {
                    self.current_track
                },
                last_poll: Some(np),
                baseline_ms,
                seek_at: None,
                ..self
            }
        }
    }

    /// The state after a locally issued seek to `position_ms` at `now`.
    pub open spec fn seek(self, position_ms: u64, now: u64) -> EngineState {
        match self.last_poll {
            None => self,
            Some(last) => EngineState {
                last_poll: Some(NowPlayingView { received_at: now, ..last }),
                baseline_ms: cap_to_duration(last.duration_ms, position_ms),
                seek_at: Some(now),
                stale_polls_after_seek: 0,
                ..self
            },
        }
    }

    /// The line that is active at `now`, if any (none before the first poll).
    pub open spec fn active_line(self, now: u64) -> Option<int> {
        if self.last_poll is None {
            None
        } else {
            active_index(self.lines, self.interpolated(now))
        }
    }

    /// The state after a frame tick at `now`.
    pub open spec fn tick(self, now: u64) -> EngineState {
        if self.last_poll is None {
            self
        } else {
            EngineState {
                upcoming_line: upcoming_text(self.lines, self.active_line(now)),
                ..self
            }
        }
    }

    /// The text a frame tick at `now` reports as the current line.
    pub open spec fn tick_text(self, now: u64) -> Option<Seq<char>> {
        match self.active_line(now) {
            Some(i) => Some(self.lines[i].text),
            None => None,
        }
    }
}

/// Estimates the playback position between polls and picks the active lyric line.
pub struct SyncEngine {
    lines: Vec<LyricLine>,
    current_track: Option<(String, String, u64)>,
    last_poll: Option<NowPlaying>,
    baseline_ms: u64,
    upcoming_line: String,
    /// When the last locally issued seek was applied, and how many polls have
    /// been discarded as predating it. Cleared as soon as a poll catches up.
    seek_at: Option<u64>,
    stale_polls_after_seek: u8,
}

impl View for SyncEngine {
    type V = EngineState;

    closed spec fn view(&self) -> EngineState {
        EngineState {
            lines: lines_view(self.lines@),
            current_track: match self.current_track {
                Some(t) => Some((t.0@, t.1@, t.2)),
                None => None,
            },
            last_poll: match self.last_poll {
                Some(np) => Some(np@),
                None => None,
            },
            baseline_ms: self.baseline_ms,
            upcoming_line: self.upcoming_line@,
            seek_at: self.seek_at,
            stale_polls_after_seek: self.stale_polls_after_seek,
        }
    }
}

impl SyncEngine {
    pub fn new() -> (r: Self)
        ensures
            r@ == EngineState::initial(),
    {
        let r = SyncEngine {
            lines: Vec::new(),
            current_track: None,
            last_poll: None,
            baseline_ms: 0,
            upcoming_line: String::new(),
            seek_at: None,
            stale_polls_after_seek: 0,
        };
        proof {
            assert(lines_view(r.lines@) =~= Seq::<LyricLineView>::empty());
        }
        r
    }

    /// Only the caller controls the lyric lines: the engine never clears them
    /// on its own, including on track change.
    pub fn set_lyrics(&mut self, lines: Vec<LyricLine>)
        ensures
            final(self)@ == (EngineState { lines: lines_view(lines@), ..old(self)@ }),
    {
        self.lines = lines;
    }

    pub fn on_poll(&mut self, np: NowPlaying)
        ensures
            final(self)@ == old(self)@.poll(np@),
    {
        let track_changed = match &self.current_track {
            Some(t) => !(t.0 == np.title) || !(t.1 == np.artist),
            None => true,
        };
        // A poll whose position was captured before a seek was issued cannot
        // reflect that seek yet; trusting it would snap the timeline back and
        // then forward again one poll later. Take everything except the
        // timeline from it.
        if !track_changed && self.is_stale_after_seek(&np) {
            self.stale_polls_after_seek = self.stale_polls_after_seek + 1;
            let received_at = match &self.last_poll {
                Some(last) => last.received_at,
                None => np.received_at,
            };
            self.last_poll = Some(NowPlaying { received_at, ..np });
            return;
        }
        self.seek_at = None;
        if track_changed {
            self.baseline_ms = np.position_ms;
            self.current_track = Some((np.title.clone(), np.artist.clone(), np.duration_ms));
        } else if np.duration_ms == 0 {
            // Sources with no real position report 0 on every poll; keep the
            // local wall-clock estimate advancing instead.
            self.baseline_ms = self.interpolate(np.received_at);
        } else {
            // Evaluated at the instant the reported position is authoritative
            // for, not whenever this poll happens to be processed.
            let guess = self.interpolate(np.received_at);
            self.baseline_ms = settle(guess, np.position_ms);
        }
        self.last_poll = Some(np);
    }

    /// Rebases the timeline onto `position_ms` as of `now`, for a seek just
    /// issued locally, so the overlay moves at once instead of a poll later.
    /// The source still has the final say: if it declined the seek, its next
    /// reported position registers as a jump and snaps the timeline back.
    /// A no-op before the first poll.
    pub fn seek_to(&mut self, position_ms: u64, now: u64)
        ensures
            final(self)@ == old(self)@.seek(position_ms, now),
    {
        match &mut self.last_poll {
            None => {},
            Some(last) => {
                let position_ms = if last.duration_ms > 0 && position_ms > last.duration_ms {
                    last.duration_ms
                } else {
                    position_ms
                };
                last.received_at = now;
                self.baseline_ms = position_ms;
                self.seek_at = Some(now);
                self.stale_polls_after_seek = 0;
            },
        }
    }

    fn is_stale_after_seek(&self, np: &NowPlaying) -> (r: bool)
        ensures
            r == self@.stale_after_seek(np@),
    {
        self.stale_polls_after_seek < MAX_STALE_POLLS_AFTER_SEEK && match self.seek_at {
            Some(t) => np.received_at < t,
            None => false,
        }
    }

    /// Returns the text of the active line at `now` and remembers the line
    /// after it (see `next_line`).
    pub fn tick(&mut self, now: u64) -> (r: Option<String>)
        ensures
            final(self)@ == old(self)@.tick(now),
            r is Some == old(self)@.tick_text(now) is Some,
            r matches Some(s) ==> old(self)@.tick_text(now) == Some(s@),
    {
        if self.last_poll.is_none() {
            return None;
        }
        let pos = self.interpolate(now);
        let ghost lv = self@.lines;
        let n = self.lines.len();
        let mut i: usize = n;
        let mut found = false;
        assert(lv.take(n as int) =~= lv);
        while i > 0
            invariant_except_break
                !found,
            invariant
                i <= n,
                n == self.lines.len(),
                lv == self@.lines,
                active_index(lv, pos) == active_index(lv.take(i as int), pos),
            ensures
                found ==> i > 0 && active_index(lv, pos) == Some(i - 1),
                !found ==> i == 0,
            decreases i,
        {
            assert(lv.take(i as int).drop_last() =~= lv.take(i - 1));
            assert(lv[i - 1].time_ms == self.lines[i - 1].time_ms);
            if self.lines[i - 1].time_ms <= pos {
                assert(lv.take(i as int).last() == lv[i - 1]);
                found = true;
                break;
            }
            i = i - 1;
        }
        if !found {
            assert(lv.take(0) =~= Seq::<LyricLineView>::empty());
        }
        let next: usize = if found { i } else { 0 };
        self.upcoming_line = if next < n {
            self.lines[next].text.clone()
        } else {
            String::new()
        };
        if found {
            Some(self.lines[i - 1].text.clone())
        } else {
            None
        }
    }

    /// The lyric lines, as last set by `set_lyrics`.
    pub fn lines(&self) -> (r: &[LyricLine])
        ensures
            lines_view(r@) == self@.lines,
    {
        self.lines.as_slice()
    }

    /// The line after the one `tick` last returned: the next line to come up,
    /// or empty before the first tick / past the last line.
    pub fn next_line(&self) -> (r: &str)
        ensures
            r@ == self@.upcoming_line,
    {
        self.upcoming_line.as_str()
    }

    pub fn position_ms(&self, now: u64) -> (r: u64)
        ensures
            r == self@.interpolated(now),
    {
        self.interpolate(now)
    }

    pub fn duration_ms(&self) -> (r: u64)
        ensures
            r == match self@.last_poll {
                Some(np) => np.duration_ms,
                None => 0,
            },
    {
        match &self.last_poll {
            Some(np) => np.duration_ms,
            None => 0,
        }
    }

    /// The estimated playback position at `now`.
    pub fn interpolate(&self, now: u64) -> (r: u64)
        ensures
            r == self@.interpolated(now),
    {
        match &self.last_poll {
            None => self.baseline_ms,
            Some(last) => {
                let raw = if last.is_playing {
                    let elapsed = if now >= last.received_at {
                        (now - last.received_at) / NANOS_PER_MS
                    } else {
                        0
                    };
                    if self.baseline_ms > u64::MAX - elapsed {
                        u64::MAX
                    } else {
                        self.baseline_ms + elapsed
                    }
                } else {
                    self.baseline_ms
                };
                if last.duration_ms > 0 && raw > last.duration_ms {
                    last.duration_ms
                } else {
                    raw
                }
            },
        }
    }
}

impl Default for SyncEngine {
    fn default() -> (r: Self)
        ensures
            r@ == EngineState::initial(),
    {
        Self::new()
    }
}

/// The baseline a same-track poll establishes from the interpolated `guess`
/// and the `reported` position.
pub fn settle(guess: u64, reported: u64) -> (r: u64)
    ensures
        r == settled(guess, reported),
{
    let jump = if reported >= guess {
        reported - guess > SEEK_THRESHOLD_MS
    } else {
        guess - reported > SEEK_THRESHOLD_MS
    };
    if jump {
        reported
    } else {
        let v: u128 = (4 * (guess as u128) + (reported as u128) + 2) / 5;
        proof {
            assert(v <= u64::MAX) by (nonlinear_arith)
                requires
                    v == (4 * (guess as int) + (reported as int) + 2) / 5,
                    guess <= u64::MAX,
                    reported <= u64::MAX,
            ;
        }
        v as u64
    }
}

} // verus!

verus! {

/// While the last poll reports the source as paused, the estimated position
/// does not depend on the time at which it is read.
pub proof fn lemma_position_frozen_while_paused(s: EngineState, now1: u64, now2: u64)
    requires
        s.last_poll matches Some(last) && !last.is_playing,
    ensures
        s.interpolated(now1) == s.interpolated(now2),
{
}

/// The estimated position never runs backwards as time moves forward.
pub proof fn lemma_position_never_runs_backwards(s: EngineState, now1: u64, now2: u64)
    requires
        now1 <= now2,
    ensures
        s.interpolated(now1) <= s.interpolated(now2),
{
    if let Some(last) = s.last_poll {
        let r = last.received_at;
        if now1 >= r {
            assert((now1 - r) / (NANOS_PER_MS as int) <= (now2 - r) / (NANOS_PER_MS as int))
                by (nonlinear_arith)
                requires
                    now1 - r <= now2 - r,
                    0 <= now1 - r,
            ;
        }
    }
}

/// A known duration caps the estimated position.
pub proof fn lemma_position_within_duration(s: EngineState, now: u64)
    requires
        s.last_poll matches Some(last) && last.duration_ms > 0,
    ensures
        s.interpolated(now) <= s.last_poll->0.duration_ms,
{
}

/// The lyric lines belong to the caller: polls, seeks and ticks never change them.
pub proof fn lemma_lines_belong_to_caller(
    s: EngineState,
    np: NowPlayingView,
    position_ms: u64,
    now: u64,
)
    ensures
        s.poll(np).lines == s.lines,
        s.seek(position_ms, now).lines == s.lines,
        s.tick(now).lines == s.lines,
{
}

/// A seek takes effect at once: read at the moment it was issued, the
/// position is the requested one (capped by a known duration).
pub proof fn lemma_seek_is_immediate(s: EngineState, position_ms: u64, now: u64)
    requires
        s.last_poll is Some,
    ensures
        s.seek(position_ms, now).interpolated(now) == cap_to_duration(
            s.last_poll->0.duration_ms,
            position_ms,
        ),
{
}

/// Before the first poll there is no timeline to rebase: a seek changes nothing.
pub proof fn lemma_seek_before_first_poll_is_ignored(s: EngineState, position_ms: u64, now: u64)
    requires
        s.last_poll is None,
    ensures
        s.seek(position_ms, now) == s,
{
}

/// A poll of the same track captured before a pending seek leaves the
/// timeline (baseline and reference time) where the seek put it.
pub proof fn lemma_stale_poll_keeps_timeline(s: EngineState, np: NowPlayingView)
    requires
        !s.track_changed(np),
        s.stale_after_seek(np),
        s.last_poll is Some,
    ensures
        s.poll(np).baseline_ms == s.baseline_ms,
        s.poll(np).last_poll->0.received_at == s.last_poll->0.received_at,
        s.poll(np).seek_at == s.seek_at,
        s.poll(np).stale_polls_after_seek == s.stale_polls_after_seek + 1,
{
}

/// The grace period after a seek is bounded: the count of discarded polls
/// never exceeds the bound, and once it is reached the next poll is trusted.
pub proof fn lemma_stale_grace_is_bounded(
    s: EngineState,
    np: NowPlayingView,
    position_ms: u64,
    now: u64,
)
    requires
        s.stale_polls_after_seek <= MAX_STALE_POLLS_AFTER_SEEK,
    ensures
        s.poll(np).stale_polls_after_seek <= MAX_STALE_POLLS_AFTER_SEEK,
        s.seek(position_ms, now).stale_polls_after_seek <= MAX_STALE_POLLS_AFTER_SEEK,
        s.tick(now).stale_polls_after_seek <= MAX_STALE_POLLS_AFTER_SEEK,
        s.stale_polls_after_seek == MAX_STALE_POLLS_AFTER_SEEK ==> s.poll(np).seek_at is None
            && s.poll(np).last_poll == Some(np),
{
}

/// A poll of the same track whose position is far from the estimate is a
/// seek: the timeline snaps exactly to the reported position.
pub proof fn lemma_snap_on_jump(s: EngineState, np: NowPlayingView)
    requires
        !s.track_changed(np),
        !s.stale_after_seek(np),
        np.duration_ms > 0,
        is_jump(s.interpolated(np.received_at), np.position_ms),
    ensures
        s.poll(np).interpolated(np.received_at) == cap_to_duration(np.duration_ms, np.position_ms),
{
}

/// Small drift is eased, never overshot: the new baseline lies between the
/// estimate and the reported position, strictly between them once they are
/// at least three milliseconds apart.
pub proof fn lemma_drift_is_eased(s: EngineState, np: NowPlayingView)
    requires
        !s.track_changed(np),
        !s.stale_after_seek(np),
        np.duration_ms > 0,
        !is_jump(s.interpolated(np.received_at), np.position_ms),
    ensures
        ({
            let guess = s.interpolated(np.received_at);
            let b = s.poll(np).baseline_ms;
            &&& guess <= np.position_ms ==> guess <= b <= np.position_ms
            &&& np.position_ms <= guess ==> np.position_ms <= b <= guess
            &&& guess + 3 <= np.position_ms ==> guess < b < np.position_ms
            &&& np.position_ms + 3 <= guess ==> np.position_ms < b < guess
        }),
{
}

/// A new track resets the timeline to the reported position and becomes the
/// current track; any pending seek is forgotten.
pub proof fn lemma_track_change_resets_timeline(s: EngineState, np: NowPlayingView)
    requires
        s.track_changed(np),
    ensures
        s.poll(np).baseline_ms == np.position_ms,
        s.poll(np).current_track == Some((np.title, np.artist, np.duration_ms)),
        s.poll(np).seek_at is None,
        s.poll(np).interpolated(np.received_at) == cap_to_duration(
            np.duration_ms,
            np.position_ms,
        ),
{
}

/// A source that cannot report a duration cannot report a position either:
/// its polls keep the local estimate instead of resetting it.
pub proof fn lemma_unknown_duration_keeps_estimate(s: EngineState, np: NowPlayingView)
    requires
        !s.track_changed(np),
        !s.stale_after_seek(np),
        np.duration_ms == 0,
    ensures
        s.poll(np).baseline_ms == s.interpolated(np.received_at),
{
}

/// Track identity ignores the reported duration.
pub proof fn lemma_duration_jitter_is_not_a_new_track(
    s: EngineState,
    np: NowPlayingView,
    duration_ms: u64,
)
    ensures
        s.track_changed(np) == s.track_changed(NowPlayingView { duration_ms, ..np }),
{
}

/// The active line is the last line that has started: its start time is at or
/// before the position and every later line starts after it. With no active
/// line, no line has started yet.
pub proof fn lemma_active_line_is_last_started(lines: Seq<LyricLineView>, pos: u64)
    ensures
        active_index(lines, pos) matches Some(i) ==> {
            &&& 0 <= i < lines.len()
            &&& lines[i].time_ms <= pos
            &&& forall|j: int| i < j < lines.len() ==> lines[j].time_ms > pos
        },
        active_index(lines, pos) is None ==> forall|j: int|
            0 <= j < lines.len() ==> lines[j].time_ms > pos,
    decreases lines.len(),
{
    if lines.len() > 0 && lines.last().time_ms > pos {
        lemma_active_line_is_last_started(lines.drop_last(), pos);
        assert forall|j: int| 0 <= j < lines.len() - 1 implies lines[j] == lines.drop_last()[j] by {}
    }
}

/// Before the first poll a tick reports no line and changes nothing.
pub proof fn lemma_tick_before_first_poll(s: EngineState, now: u64)
    requires
        s.last_poll is None,
    ensures
        s.tick_text(now) is None,
        s.tick(now) == s,
{
}

/// After a tick, the remembered next line is the line after the reported one
/// (the first line when none is active yet), and it has not started yet.
pub proof fn lemma_next_line_follows_current(s: EngineState, now: u64)
    requires
        s.last_poll is Some,
    ensures
        ({
            let next = match s.active_line(now) {
                Some(i) => i + 1,
                None => 0,
            };
            &&& 0 <= next < s.lines.len() ==> s.tick(now).upcoming_line == s.lines[next].text
                && s.lines[next].time_ms > s.interpolated(now)
            &&& next >= s.lines.len() ==> s.tick(now).upcoming_line == Seq::<char>::empty()
        }),
{
    lemma_active_line_is_last_started(s.lines, s.interpolated(now));
}

} // verus!

verus! {

/// Every seek opens a full grace period: the count of discarded polls starts
/// again from zero, so a poll of the same track captured before the seek is
/// discarded, however many polls earlier seeks discarded.
pub proof fn lemma_seek_opens_a_full_grace_period(
    s: EngineState,
    position_ms: u64,
    now: u64,
    np: NowPlayingView,
)
    requires
        s.last_poll is Some,
        np.received_at < now,
    ensures
        s.seek(position_ms, now).stale_polls_after_seek == 0,
        s.seek(position_ms, now).seek_at == Some(now),
        s.seek(position_ms, now).stale_after_seek(np),
        !s.seek(position_ms, now).track_changed(np) ==> s.seek(position_ms, now).poll(
            np,
        ).baseline_ms == s.seek(position_ms, now).baseline_ms,
{
}

} // verus!
