//! The overlay's per-frame decisions: track identity, time labels, and how
//! the two lyric rows move when the current line changes.

use vstd::prelude::*;

use crate::domain::NowPlaying;
use crate::text::{decimal, push_char, push_decimal, push_zero_padded, zero_padded};

verus! {

/// Row role: the line being sung.
pub const ROLE_CURRENT: i32 = 0;

/// Row role: the line coming up.
pub const ROLE_NEXT: i32 = 1;

/// Row role: hidden, waiting to rise into the "next" position.
pub const ROLE_ENTERING: i32 = 2;

/// How long a row parked in the hidden "entering" role waits before animating
/// up into "next": at least one rendered frame, so the animation has a
/// starting point to move from.
pub const LYRIC_ENTER_DELAY_MS: u64 = 32;

/// Whether two track identities (title, artist, duration) name the same
/// track. Identity is title and artist only: some sources report a duration
/// that jitters by a few milliseconds from poll to poll.
pub fn same_track(a: &(String, String, u64), b: &(String, String, u64)) -> (r: bool)
    ensures
        r == (a.0@ == b.0@ && a.1@ == b.1@),
{
    a.0 == b.0 && a.1 == b.1
}

/// Which track the overlay is showing, by identity. Lyrics are requested
/// when the track changes, and a lyrics answer is applied only while the
/// track it was requested for is still the current one.
pub struct TrackWatch {
    pub current_track: Option<(String, String, u64)>,
}

impl TrackWatch {
    pub fn new() -> (r: Self)
        ensures
            r.current_track is None,
    {
        TrackWatch { current_track: None }
    }

    /// Records a poll. Returns whether it starts a new track (by title and
    /// artist); only then does the recorded identity change, to the poll's
    /// title, artist and duration.
    pub fn on_poll(&mut self, np: &NowPlaying) -> (changed: bool)
        ensures
            changed == match old(self).current_track {
                Some(t) => !(t.0@ == np.title@ && t.1@ == np.artist@),
                None => true,
            },
            changed ==> (final(self).current_track matches Some(t) && t.0@ == np.title@ && t.1@
                == np.artist@ && t.2 == np.duration_ms),
            !changed ==> final(self).current_track == old(self).current_track,
    {
        let track_id = (np.title.clone(), np.artist.clone(), np.duration_ms);
        let changed = match &self.current_track {
            Some(current) => !same_track(current, &track_id),
            None => true,
        };
        if changed {
            self.current_track = Some(track_id);
        }
        changed
    }

    /// Whether lyrics fetched for `track` belong to the current track.
    pub fn accepts(&self, track: &(String, String, u64)) -> (r: bool)
        ensures
            r == match self.current_track {
                Some(t) => t.0@ == track.0@ && t.1@ == track.1@,
                None => false,
            },
    {
        match &self.current_track {
            Some(current) => same_track(current, track),
            None => false,
        }
    }
}

/// `minutes:seconds`, seconds zero-padded to two digits.
pub open spec fn mmss(ms: u64) -> Seq<char> {
    let total_secs = ms / 1000;
    decimal((total_secs / 60) as nat) + seq![':'] + zero_padded((total_secs % 60) as nat, 2)
}

/// Formats a duration in milliseconds as `m:ss` (whole seconds, rounded down).
pub fn format_mmss(ms: u64) -> (r: String)
    ensures
        r@ == mmss(ms),
{
    let total_secs = ms / 1000;
    let mut out = String::new();
    push_decimal(&mut out, total_secs / 60);
    push_char(&mut out, ':');
    push_zero_padded(&mut out, total_secs % 60, 2);
    out
}

/// One of the two lyric rows of the card.
#[derive(Clone, Copy, Debug, PartialEq, Eq, Structural)]
pub enum RowSlot {
    A,
    B,
}

/// Property writes to one row; `None` leaves a property as it is.
pub struct RowWrite {
    pub slot: RowSlot,
    pub text: Option<String>,
    pub role: Option<i32>,
    /// Whether changes to the row apply without animation.
    pub instant: Option<bool>,
}

/// What a change of lyric line does to the rows: `now` is applied at once,
/// `later` after `LYRIC_ENTER_DELAY_MS`.
pub struct RowUpdate {
    pub now: Vec<RowWrite>,
    pub later: Vec<RowWrite>,
}

/// The mathematical content of a `RowWrite`.
pub struct RowWriteView {
    pub slot: RowSlot,
    pub text: Option<Seq<char>>,
    pub role: Option<i32>,
    pub instant: Option<bool>,
}

impl View for RowWrite {
    type V = RowWriteView;

    open spec fn view(&self) -> RowWriteView {
        RowWriteView {
            slot: self.slot,
            text: match self.text {
                Some(t) => Some(t@),
                None => None,
            },
            role: self.role,
            instant: self.instant,
        }
    }
}

pub open spec fn writes_view(w: Seq<RowWrite>) -> Seq<RowWriteView> {
    w.map_values(|x: RowWrite| x@)
}

pub open spec fn other(slot: RowSlot) -> RowSlot {
    match slot {
        RowSlot::A => RowSlot::B,
        RowSlot::B => RowSlot::A,
    }
}

pub open spec fn write(
    slot: RowSlot,
    text: Option<Seq<char>>,
    role: Option<i32>,
    instant: Option<bool>,
) -> RowWriteView {
    RowWriteView { slot, text, role, instant }
}

/// An ordinary one-line advance. The row already showing the new line (last
/// cycle's "next") is promoted to "current" without touching its text, so it
/// animates smoothly; the retiring row is instantly (invisibly) given the new
/// next line and parked as "entering", then released to rise into "next".
pub open spec fn promote_writes(current: RowSlot, next_line: Seq<char>) -> (
    Seq<RowWriteView>,
    Seq<RowWriteView>,
) {
    (
        seq![
            write(other(current), None, Some(ROLE_CURRENT), None),
            write(current, None, None, Some(true)),
            write(current, Some(next_line), Some(ROLE_ENTERING), None),
        ],
        seq![write(current, None, Some(ROLE_NEXT), Some(false))],
    )
}

/// A seek, the first line of a track, or any jump that skips lines: no row
/// already shows the right text, so both rows snap directly to their state.
pub open spec fn snap_writes(current: RowSlot, line: Seq<char>, next_line: Seq<char>) -> (
    Seq<RowWriteView>,
    Seq<RowWriteView>,
) {
    (
        seq![
            write(RowSlot::A, None, None, Some(true)),
            write(RowSlot::B, None, None, Some(true)),
            write(current, Some(line), Some(ROLE_CURRENT), None),
            write(other(current), Some(next_line), Some(ROLE_NEXT), None),
        ],
        seq![
            write(RowSlot::A, None, None, Some(false)),
            write(RowSlot::B, None, None, Some(false)),
        ],
    )
}

/// The lyric rows' memory between frames.
pub struct LyricRows {
    pub last_line: Option<String>,
    pub last_next_line: Option<String>,
    /// Which row currently plays the "current" role; flips on every one-line
    /// advance.
    pub current: RowSlot,
}

pub open spec fn opt_view(o: Option<String>) -> Option<Seq<char>> {
    match o {
        Some(s) => Some(s@),
        None => None,
    }
}

fn write_of(slot: RowSlot, text: Option<String>, role: Option<i32>, instant: Option<bool>) -> (r:
    RowWrite)
    ensures
        r@ == write(slot, opt_view(text), role, instant),
{
    RowWrite { slot, text, role, instant }
}

fn other_slot(slot: RowSlot) -> (r: RowSlot)
    ensures
        r == other(slot),
{
    match slot {
        RowSlot::A => RowSlot::B,
        RowSlot::B => RowSlot::A,
    }
}

impl LyricRows {
    pub fn new() -> (r: Self)
        ensures
            r.last_line is None,
            r.last_next_line is None,
            r.current == RowSlot::A,
    {
        LyricRows { last_line: None, last_next_line: None, current: RowSlot::A }
    }

    /// Called every frame with the current line (empty when none) and the
    /// line after it. Nothing happens while the line stays the same. When it
    /// changes, a one-line advance (the new line is the previous "next" line)
    /// promotes the rows and flips which one is current; anything else snaps.
    pub fn on_tick(&mut self, line: String, next_line: String) -> (r: Option<RowUpdate>)
        ensures
            opt_view(old(self).last_line) == Some(line@) ==> r is None && *final(self) == *old(
                self,
            ),
            opt_view(old(self).last_line) != Some(line@) ==> {
                &&& r is Some
                &&& final(self).last_line matches Some(l) && l@ == line@
                &&& final(self).last_next_line matches Some(n) && n@ == next_line@
                &&& if opt_view(old(self).last_next_line) == Some(line@) {
                    &&& (writes_view(r->0.now@), writes_view(r->0.later@)) == promote_writes(
                        old(self).current,
                        next_line@,
                    )
                    &&& final(self).current == other(old(self).current)
                } else {
                    &&& (writes_view(r->0.now@), writes_view(r->0.later@)) == snap_writes(
                        old(self).current,
                        line@,
                        next_line@,
                    )
                    &&& final(self).current == old(self).current
                }
            },
    {
        let unchanged = match &self.last_line {
            Some(l) => *l == line,
            None => false,
        };
        if unchanged {
            return None;
        }
        let advanced_by_one = match &self.last_next_line {
            Some(n) => *n == line,
            None => false,
        };
        let current = self.current;
        let update = if advanced_by_one {
            let mut now: Vec<RowWrite> = Vec::new();
            now.push(write_of(other_slot(current), None, Some(ROLE_CURRENT), None));
            now.push(write_of(current, None, None, Some(true)));
            now.push(write_of(current, Some(next_line.clone()), Some(ROLE_ENTERING), None));
            let mut later: Vec<RowWrite> = Vec::new();
            later.push(write_of(current, None, Some(ROLE_NEXT), Some(false)));
            proof {
                let p = promote_writes(current, next_line@);
                assert(writes_view(now@) =~= p.0);
                assert(writes_view(later@) =~= p.1);
            }
            self.current = other_slot(current);
            RowUpdate { now, later }
        } else {
            let mut now: Vec<RowWrite> = Vec::new();
            now.push(write_of(RowSlot::A, None, None, Some(true)));
            now.push(write_of(RowSlot::B, None, None, Some(true)));
            now.push(write_of(current, Some(line.clone()), Some(ROLE_CURRENT), None));
            now.push(write_of(other_slot(current), Some(next_line.clone()), Some(ROLE_NEXT), None));
            let mut later: Vec<RowWrite> = Vec::new();
            later.push(write_of(RowSlot::A, None, None, Some(false)));
            later.push(write_of(RowSlot::B, None, None, Some(false)));
            proof {
                let p = snap_writes(current, line@, next_line@);
                assert(writes_view(now@) =~= p.0);
                assert(writes_view(later@) =~= p.1);
            }
            RowUpdate { now, later }
        };
        self.last_line = Some(line);
        self.last_next_line = Some(next_line);
        Some(update)
    }
}

} // verus!

verus! {

/// A one-line advance promotes the other row to current without touching its
/// text, and rewrites only the retiring row `current`: every other write,
/// now and later, targets `current`, and the only text written is the new
/// next line. Snapping writes the line to `current` and the next line to the
/// other row.
pub proof fn lemma_advance_rewrites_only_the_retiring_row(
    current: RowSlot,
    line: Seq<char>,
    next_line: Seq<char>,
)
    ensures
        ({
            let (now, later) = promote_writes(current, next_line);
            &&& now.len() >= 1
            &&& now[0].slot != current && now[0].role == Some(ROLE_CURRENT) && now[0].text is None
            &&& forall|i: int| 1 <= i < now.len() ==> (#[trigger] now[i]).slot == current
            &&& forall|i: int| 0 <= i < later.len() ==> (#[trigger] later[i]).slot == current
            &&& forall|i: int|
                0 <= i < now.len() && (#[trigger] now[i]).text is Some ==> now[i].text
                    == Some(next_line) && now[i].slot == current
            &&& forall|i: int| 0 <= i < later.len() ==> (#[trigger] later[i]).text is None
        }),
        ({
            let (now, later) = snap_writes(current, line, next_line);
            &&& forall|i: int|
                0 <= i < now.len() && (#[trigger] now[i]).text == Some(line) && line != next_line
                    ==> now[i].slot == current
            &&& forall|i: int|
                0 <= i < now.len() && (#[trigger] now[i]).text == Some(next_line) && line
                    != next_line ==> now[i].slot != current
            &&& exists|i: int|
                0 <= i < now.len() && (#[trigger] now[i]).text == Some(line) && now[i].slot
                    == current && now[i].role == Some(ROLE_CURRENT)
            &&& exists|i: int|
                0 <= i < now.len() && (#[trigger] now[i]).text == Some(next_line) && now[i].slot
                    != current && now[i].role == Some(ROLE_NEXT)
            &&& forall|i: int| 0 <= i < later.len() ==> (#[trigger] later[i]).text is None
        }),
{
    let (now, later) = snap_writes(current, line, next_line);
    assert(now[2].text == Some(line));
    assert(now[3].text == Some(next_line));
}

} // verus!
