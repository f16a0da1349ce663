use lyra::app::{
    format_mmss, same_track, LyricRows, TrackWatch, RowSlot, RowUpdate, RowWrite, ROLE_CURRENT, ROLE_ENTERING,
    ROLE_NEXT,
};
use lyra::overlay::screen::{ensure_on_screen, ScreenRect};

type Write = (RowSlot, Option<String>, Option<i32>, Option<bool>);

fn writes(ws: &[RowWrite]) -> Vec<Write> {
    ws.iter()
        .map(|w| (w.slot, w.text.clone(), w.role, w.instant))
        .collect()
}

fn parts(update: RowUpdate) -> (Vec<Write>, Vec<Write>) {
    (writes(&update.now), writes(&update.later))
}

#[test]
fn formats_minutes_and_padded_seconds() {
    assert_eq!(format_mmss(0), "0:00");
    assert_eq!(format_mmss(999), "0:00");
    assert_eq!(format_mmss(61_000), "1:01");
    assert_eq!(format_mmss(187_432), "3:07");
    assert_eq!(format_mmss(3_600_000), "60:00");
    assert_eq!(format_mmss(u64::MAX), "307445734561825:51");
}

#[test]
fn track_identity_ignores_duration() {
    let a = ("Song".to_string(), "Artist".to_string(), 200_000);
    let b = ("Song".to_string(), "Artist".to_string(), 200_004);
    let c = ("Song".to_string(), "Other".to_string(), 200_000);
    assert!(same_track(&a, &b));
    assert!(!same_track(&a, &c));
}

#[test]
fn first_line_snaps_both_rows() {
    let mut rows = LyricRows::new();
    let (now, later) = parts(rows.on_tick("one".to_string(), "two".to_string()).unwrap());
    assert_eq!(
        now,
        vec![
            (RowSlot::A, None, None, Some(true)),
            (RowSlot::B, None, None, Some(true)),
            (RowSlot::A, Some("one".to_string()), Some(ROLE_CURRENT), None),
            (RowSlot::B, Some("two".to_string()), Some(ROLE_NEXT), None),
        ]
    );
    assert_eq!(
        later,
        vec![
            (RowSlot::A, None, None, Some(false)),
            (RowSlot::B, None, None, Some(false)),
        ]
    );
    assert_eq!(rows.current, RowSlot::A);
}

#[test]
fn unchanged_line_does_nothing() {
    let mut rows = LyricRows::new();
    rows.on_tick("one".to_string(), "two".to_string());
    assert!(rows.on_tick("one".to_string(), "two".to_string()).is_none());
}

#[test]
fn one_line_advance_promotes_the_next_row() {
    let mut rows = LyricRows::new();
    rows.on_tick("one".to_string(), "two".to_string());
    let (now, later) = parts(rows.on_tick("two".to_string(), "three".to_string()).unwrap());
    assert_eq!(
        now,
        vec![
            (RowSlot::B, None, Some(ROLE_CURRENT), None),
            (RowSlot::A, None, None, Some(true)),
            (RowSlot::A, Some("three".to_string()), Some(ROLE_ENTERING), None),
        ]
    );
    assert_eq!(later, vec![(RowSlot::A, None, Some(ROLE_NEXT), Some(false))]);
    assert_eq!(rows.current, RowSlot::B);

    // The next advance promotes row A back.
    let (now, _) = parts(rows.on_tick("three".to_string(), "four".to_string()).unwrap());
    assert_eq!(now[0], (RowSlot::A, None, Some(ROLE_CURRENT), None));
    assert_eq!(rows.current, RowSlot::A);
}

#[test]
fn skipping_lines_snaps_in_place() {
    let mut rows = LyricRows::new();
    rows.on_tick("one".to_string(), "two".to_string());
    rows.on_tick("two".to_string(), "three".to_string());
    let (now, _) = parts(rows.on_tick("nine".to_string(), "ten".to_string()).unwrap());
    assert_eq!(now[2], (RowSlot::B, Some("nine".to_string()), Some(ROLE_CURRENT), None));
    assert_eq!(now[3], (RowSlot::A, Some("ten".to_string()), Some(ROLE_NEXT), None));
    assert_eq!(rows.current, RowSlot::B);
}

#[test]
fn visible_card_stays_put() {
    let work = ScreenRect {
        left: 0,
        top: 0,
        right: 1920,
        bottom: 1040,
    };
    assert_eq!(ensure_on_screen(true, Some(work), 400, 200), None);
    assert_eq!(ensure_on_screen(false, None, 400, 200), None);
}

#[test]
fn lost_card_moves_to_the_bottom_right_of_the_work_area() {
    let work = ScreenRect {
        left: 0,
        top: 0,
        right: 1920,
        bottom: 1040,
    };
    assert_eq!(
        ensure_on_screen(false, Some(work), 400, 200),
        Some((1920 - 400 - 24, 1040 - 200 - 24))
    );
    let small = ScreenRect {
        left: 100,
        top: 50,
        right: 300,
        bottom: 120,
    };
    assert_eq!(ensure_on_screen(false, Some(small), 400, 200), Some((100, 50)));
}

fn playing(title: &str, artist: &str, duration_ms: u64) -> lyra::domain::NowPlaying {
    lyra::domain::NowPlaying {
        title: title.to_string(),
        artist: artist.to_string(),
        duration_ms,
        is_playing: true,
        position_ms: 0,
        received_at: 0,
        can_play_pause: true,
        can_next: true,
        can_previous: true,
        can_seek: true,
    }
}

#[test]
fn track_watch_requests_lyrics_once_per_track() {
    let mut watch = TrackWatch::new();
    assert!(!watch.accepts(&("Song".to_string(), "Artist".to_string(), 1)));
    assert!(watch.on_poll(&playing("Song", "Artist", 200_000)));
    assert!(!watch.on_poll(&playing("Song", "Artist", 200_003)));
    assert_eq!(
        watch.current_track,
        Some(("Song".to_string(), "Artist".to_string(), 200_000))
    );
    assert!(watch.accepts(&("Song".to_string(), "Artist".to_string(), 199_000)));
    assert!(watch.on_poll(&playing("Other", "Artist", 200_000)));
    // An answer for the previous track arrives too late: discarded.
    assert!(!watch.accepts(&("Song".to_string(), "Artist".to_string(), 200_000)));
}
