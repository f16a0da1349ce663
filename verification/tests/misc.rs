use lyra::domain::NowPlaying;
use lyra::hotkey::{toggle_requested, HotkeyEvent};
use lyra::logging::format_log_stamp;
use lyra::lyrics::cache::cache_file_name;
use lyra::media::mediaremote::now_playing_from_payload;
use lyra::media::windows::{filetime_received_at, timespan_ms, FILETIME_TO_UNIX_100NS};
use lyra::media::MediaCommand;
use lyra::tray::{command_for_menu_id, last_command, TrayCommand, QUIT_ID, SHOW_HIDE_ID, STARTUP_ID};

fn parse_payload(
    title: Option<&str>,
    playing: Option<bool>,
    artist: Option<&str>,
    duration_ms: u64,
    position_ms: u64,
) -> Option<NowPlaying> {
    now_playing_from_payload(
        title.map(|s| s.to_string()),
        playing,
        artist.map(|s| s.to_string()),
        duration_ms,
        position_ms,
        42,
    )
}

#[test]
fn parses_a_full_payload() {
    // durationMicros 200_000_000 and elapsedTimeMicros 45_000_000.
    let np = parse_payload(Some("Song"), Some(true), Some("Artist"), 200_000, 45_000)
        .expect("should parse");
    assert_eq!(np.title, "Song");
    assert_eq!(np.artist, "Artist");
    assert_eq!(np.duration_ms, 200_000);
    assert_eq!(np.position_ms, 45_000);
    assert!(np.is_playing);
}

#[test]
fn missing_title_is_rejected() {
    assert!(parse_payload(None, Some(true), None, 0, 0).is_none());
}

#[test]
fn empty_payload_is_rejected() {
    assert!(parse_payload(None, None, None, 0, 0).is_none());
}

#[test]
fn missing_artist_and_duration_default_sanely() {
    let np = parse_payload(Some("Untitled"), Some(false), None, 0, 0).expect("should parse");
    assert_eq!(np.artist, "");
    assert_eq!(np.duration_ms, 0);
    assert_eq!(np.position_ms, 0);
    assert!(!np.is_playing);
}

#[test]
fn blank_title_or_missing_flag_is_no_session() {
    assert!(parse_payload(Some("  "), Some(true), Some("A"), 1, 1).is_none());
    assert!(parse_payload(Some("Song"), None, Some("A"), 1, 1).is_none());
    let np = parse_payload(Some("Song"), Some(true), None, 1, 1).unwrap();
    assert_eq!(np.received_at, 42);
    assert!(np.can_play_pause && np.can_next && np.can_previous);
    assert!(!np.can_seek);
}

#[test]
fn track_id_is_title_artist_duration() {
    let np = parse_payload(Some("Song"), Some(true), Some("Artist"), 1_234, 0).unwrap();
    assert_eq!(np.track_id(), ("Song", "Artist", 1_234));
}

#[test]
fn filetime_is_placed_on_the_monotonic_clock() {
    let unix_ns_of = |ft: i64| ((ft - FILETIME_TO_UNIX_100NS) as u128) * 100;
    let ft: i64 = FILETIME_TO_UNIX_100NS + 17_000_000_000_000_000;
    let now_mono: u64 = 10_000_000_000;
    // Updated 1.5 s before the wall-clock now.
    let wall_now = unix_ns_of(ft) + 1_500_000_000;
    assert_eq!(filetime_received_at(ft, wall_now, now_mono), now_mono - 1_500_000_000);
    // In the future: now.
    assert_eq!(filetime_received_at(ft, unix_ns_of(ft) - 1, now_mono), now_mono);
    // Older than the monotonic clock reaches: now.
    assert_eq!(filetime_received_at(ft, unix_ns_of(ft) + 20_000_000_000, now_mono), now_mono);
    // Before 1970 counts as 1970.
    assert_eq!(filetime_received_at(0, 5, now_mono), now_mono - 5);
}

#[test]
fn tray_ids_map_to_commands() {
    assert_eq!(command_for_menu_id(QUIT_ID), Some(TrayCommand::Quit));
    assert_eq!(command_for_menu_id(SHOW_HIDE_ID), Some(TrayCommand::ToggleVisibility));
    assert_eq!(command_for_menu_id(STARTUP_ID), Some(TrayCommand::ToggleRunOnStartup));
    assert_eq!(command_for_menu_id("lyra.other"), None);
}

#[test]
fn last_recognised_tray_event_wins() {
    let ids = vec![
        "lyra.quit".to_string(),
        "lyra.show-hide".to_string(),
        "something".to_string(),
    ];
    assert_eq!(last_command(&ids), Some(TrayCommand::ToggleVisibility));
    assert_eq!(last_command(&Vec::new()), None);
}

#[test]
fn log_stamp_is_zero_padded() {
    assert_eq!(format_log_stamp(3_723, 4), "01:02:03.004");
    assert_eq!(format_log_stamp(0, 0), "00:00:00.000");
    assert_eq!(format_log_stamp(360_000, 999), "100:00:00.999");
}

#[test]
fn cache_file_name_is_sixteen_hex_digits() {
    assert_eq!(cache_file_name(255), "00000000000000ff.json");
    assert_eq!(cache_file_name(u64::MAX), "ffffffffffffffff.json");
    assert_eq!(cache_file_name(0x0123_4567_89ab_cdef), "0123456789abcdef.json");
}

#[test]
fn seek_command_carries_its_position() {
    let c = MediaCommand::Seek { position_ms: 1_500 };
    assert_eq!(c, MediaCommand::Seek { position_ms: 1_500 });
    assert_ne!(c, MediaCommand::Next);
}

#[test]
fn timespans_convert_to_whole_milliseconds() {
    assert_eq!(timespan_ms(0), 0);
    assert_eq!(timespan_ms(9_999), 0);
    assert_eq!(timespan_ms(10_000), 1);
    assert_eq!(timespan_ms(1_234_567_890), 123_456);
    assert_eq!(timespan_ms(-50_000), 0);
}

#[test]
fn only_a_press_of_the_toggle_key_counts() {
    let events = vec![
        HotkeyEvent { id: 7, pressed: false },
        HotkeyEvent { id: 3, pressed: true },
    ];
    assert!(!toggle_requested(&events, 7));
    assert!(toggle_requested(&events, 3));
    assert!(!toggle_requested(&Vec::new(), 3));
}
