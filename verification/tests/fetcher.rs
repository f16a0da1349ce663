use lyra::lyrics::fetcher::{
    percent_encode_path_segment, track_to_lines, FetchError, FetchStage, FetchState, FetchStep,
    LyricsFetcher, LyricsRequest, LyricsResponse, SearchTrack,
};

fn expect_request(step: FetchStep) -> (FetchState, LyricsRequest) {
    match step {
        FetchStep::Request(state, request) => (state, request),
        FetchStep::Done(_) => panic!("expected a request"),
    }
}

fn expect_lines(step: FetchStep) -> Vec<(u64, String)> {
    match step {
        FetchStep::Done(Ok(lines)) => lines.into_iter().map(|l| (l.time_ms, l.text)).collect(),
        FetchStep::Done(Err(_)) => panic!("expected lyrics, got an error"),
        FetchStep::Request(..) => panic!("expected the chain to end"),
    }
}

fn state(title: &str, artist: &str, stage: FetchStage) -> FetchState {
    FetchState {
        title: title.to_string(),
        artist: artist.to_string(),
        stage,
    }
}

#[test]
fn blank_title_ends_without_a_request() {
    assert!(expect_lines(LyricsFetcher::begin("  \t", "Artist", 200_000)).is_empty());
}

#[test]
fn exact_lookup_comes_first_with_trimmed_fields_and_whole_seconds() {
    let (st, req) = expect_request(LyricsFetcher::begin("  Yesterday ", " The Beatles", 125_999));
    assert_eq!(st.stage, FetchStage::Lookup);
    assert_eq!(st.title, "Yesterday");
    assert_eq!(st.artist, "The Beatles");
    match req {
        LyricsRequest::LrclibGet {
            track_name,
            artist_name,
            duration_s,
        } => {
            assert_eq!(track_name, "Yesterday");
            assert_eq!(artist_name, "The Beatles");
            assert_eq!(duration_s, 125);
        }
        _ => panic!("expected the exact lookup"),
    }
}

#[test]
fn unknown_duration_or_artist_starts_with_the_search() {
    let (st, req) = expect_request(LyricsFetcher::begin("Numb", "Linkin Park", 0));
    assert_eq!(st.stage, FetchStage::Search);
    match req {
        LyricsRequest::LrclibSearch { track_name, artist } => {
            assert_eq!(track_name, "Numb");
            assert_eq!(artist.as_deref(), Some("Linkin Park"));
        }
        _ => panic!("expected the search"),
    }
    let (st, req) = expect_request(LyricsFetcher::begin("Numb", "  ", 187_000));
    assert_eq!(st.stage, FetchStage::Search);
    match req {
        LyricsRequest::LrclibSearch { artist, .. } => assert!(artist.is_none()),
        _ => panic!("expected the search"),
    }
}

#[test]
fn synced_lookup_answer_ends_the_chain() {
    let step = LyricsFetcher::resume(
        state("Song", "Artist", FetchStage::Lookup),
        LyricsResponse::Track {
            synced_lyrics: Some("[00:02.00]b\n[00:01.00]a".to_string()),
            plain_lyrics: Some("ignored".to_string()),
        },
    );
    assert_eq!(
        expect_lines(step),
        vec![(1_000, "a".to_string()), (2_000, "b".to_string())]
    );
}

#[test]
fn failed_or_empty_lookup_moves_on_to_the_search() {
    for response in [
        LyricsResponse::Failed("status 404".to_string()),
        LyricsResponse::NotFound,
        LyricsResponse::Track {
            synced_lyrics: Some(String::new()),
            plain_lyrics: None,
        },
    ] {
        let (st, req) =
            expect_request(LyricsFetcher::resume(state("Song", "Artist", FetchStage::Lookup), response));
        assert_eq!(st.stage, FetchStage::Search);
        assert!(matches!(req, LyricsRequest::LrclibSearch { .. }));
    }
}

#[test]
fn search_prefers_the_matching_artist_ignoring_ascii_case() {
    let tracks = vec![
        SearchTrack {
            artist_name: "Someone Else".to_string(),
            synced_lyrics: None,
            plain_lyrics: Some("wrong".to_string()),
        },
        SearchTrack {
            artist_name: "the BEATLES".to_string(),
            synced_lyrics: None,
            plain_lyrics: Some("right".to_string()),
        },
    ];
    let step = LyricsFetcher::resume(
        state("Yesterday", "The Beatles", FetchStage::Search),
        LyricsResponse::SearchResults(tracks),
    );
    assert_eq!(expect_lines(step), vec![(0, "right".to_string())]);
}

#[test]
fn search_falls_back_to_the_first_record() {
    let tracks = vec![
        SearchTrack {
            artist_name: "A".to_string(),
            synced_lyrics: Some("[00:00.10]first".to_string()),
            plain_lyrics: None,
        },
        SearchTrack {
            artist_name: "B".to_string(),
            synced_lyrics: Some("[00:00.20]second".to_string()),
            plain_lyrics: None,
        },
    ];
    let step = LyricsFetcher::resume(
        state("Song", "Nobody", FetchStage::Search),
        LyricsResponse::SearchResults(tracks),
    );
    assert_eq!(expect_lines(step), vec![(100, "first".to_string())]);
}

#[test]
fn empty_search_without_artist_ends_empty() {
    let step = LyricsFetcher::resume(
        state("Song", "", FetchStage::Search),
        LyricsResponse::SearchResults(Vec::new()),
    );
    assert!(expect_lines(step).is_empty());
}

#[test]
fn empty_search_with_artist_falls_back_to_lyrics_ovh() {
    let (st, req) = expect_request(LyricsFetcher::resume(
        state("Back in Black", "AC/DC", FetchStage::Search),
        LyricsResponse::NotFound,
    ));
    assert_eq!(st.stage, FetchStage::Fallback);
    match req {
        LyricsRequest::LyricsOvh { url } => {
            assert_eq!(url, "https://api.lyrics.ovh/v1/AC%2FDC/Back%20in%20Black");
        }
        _ => panic!("expected lyrics.ovh"),
    }
}

#[test]
fn lyrics_ovh_answer_ends_the_chain() {
    let step = LyricsFetcher::resume(
        state("Song", "Artist", FetchStage::Fallback),
        LyricsResponse::PlainText("  \nsome words\nmore words \n".to_string()),
    );
    assert_eq!(
        expect_lines(step),
        vec![(0, "some words\nmore words".to_string())]
    );

    let blank = LyricsFetcher::resume(
        state("Song", "Artist", FetchStage::Fallback),
        LyricsResponse::PlainText("   ".to_string()),
    );
    assert!(expect_lines(blank).is_empty());

    let not_found = LyricsFetcher::resume(
        state("Song", "Artist", FetchStage::Fallback),
        LyricsResponse::NotFound,
    );
    assert!(expect_lines(not_found).is_empty());
}

#[test]
fn lyrics_ovh_failure_is_the_chain_error() {
    match LyricsFetcher::resume(
        state("Song", "Artist", FetchStage::Fallback),
        LyricsResponse::Failed("connection reset".to_string()),
    ) {
        FetchStep::Done(Err(FetchError::Failed(msg))) => assert_eq!(msg, "connection reset"),
        _ => panic!("expected the failure"),
    }
    assert!(matches!(
        LyricsFetcher::resume(
            state("Song", "Artist", FetchStage::Fallback),
            LyricsResponse::SearchResults(Vec::new()),
        ),
        FetchStep::Done(Err(FetchError::UnexpectedResponse))
    ));
}

#[test]
fn track_lines_prefer_synced_then_plain() {
    let synced = track_to_lines(Some("[00:01.00]x".to_string()), Some("plain".to_string()));
    assert_eq!(synced.len(), 1);
    assert_eq!(synced[0].time_ms, 1_000);
    let plain = track_to_lines(Some(String::new()), Some("plain text".to_string()));
    assert_eq!(plain.len(), 1);
    assert_eq!(plain[0].time_ms, 0);
    assert_eq!(plain[0].text, "plain text");
    assert!(track_to_lines(None, Some(String::new())).is_empty());
    assert!(track_to_lines(None, None).is_empty());
}

#[test]
fn percent_encoding_keeps_unreserved_and_escapes_the_rest() {
    assert_eq!(percent_encode_path_segment("Az09-_.~"), "Az09-_.~");
    assert_eq!(percent_encode_path_segment("a b/c?"), "a%20b%2Fc%3F");
    assert_eq!(percent_encode_path_segment("é"), "%C3%A9");
    assert_eq!(percent_encode_path_segment("%"), "%25");
    assert_eq!(percent_encode_path_segment(""), "");
}
