//! The chain of lyric sources: an LRCLIB lookup by title, artist and duration,
//! then an LRCLIB search, then the plain-text lyrics.ovh service.
//!
//! The chain is a state machine: `LyricsFetcher::begin` and
//! `LyricsFetcher::resume` decide which request to make next, or what the
//! final answer is, from the answers received so far. Whoever drives it
//! performs the HTTP requests and hands back each answer.

use vstd::prelude::*;
use vstd::string::StringSliceAdditionalSpecFns;
use vstd::utf8::encode_utf8;

use crate::lyrics::parser::{parse_lrc, parsed_lines, sort_by_time};
use crate::lyrics::{lines_view, LyricLine, LyricLineView};
use crate::text::{eq_ignore_ascii_case, eq_ignore_ascii_case_str, push_char, trim, trimmed};

verus! {

/// Decides the sequence of lyric requests for a track.
pub struct LyricsFetcher;

/// Which request of the chain is outstanding.
#[derive(Clone, Copy, Debug, PartialEq, Eq, Structural)]
pub enum FetchStage {
    /// `GET https://lrclib.net/api/get`
    Lookup,
    /// `GET https://lrclib.net/api/search`
    Search,
    /// `GET https://api.lyrics.ovh/v1/{artist}/{title}`
    Fallback,
}

/// Where a chain stands: the (trimmed) track it is for and the outstanding request.
pub struct FetchState {
    pub title: String,
    pub artist: String,
    pub stage: FetchStage,
}

/// One HTTP request the chain asks for.
pub enum LyricsRequest {
    /// LRCLIB exact lookup; `duration_s` is the track length in whole seconds.
    LrclibGet { track_name: String, artist_name: String, duration_s: u64 },
    /// LRCLIB search; the artist is only part of the query when known.
    LrclibSearch { track_name: String, artist: Option<String> },
    /// lyrics.ovh, addressed by its full URL.
    LyricsOvh { url: String },
}

/// One record of an LRCLIB search answer.
pub struct SearchTrack {
    pub artist_name: String,
    pub synced_lyrics: Option<String>,
    pub plain_lyrics: Option<String>,
}

/// The answer to a `LyricsRequest`.
pub enum LyricsResponse {
    /// An LRCLIB track record (the answer to a lookup).
    Track { synced_lyrics: Option<String>, plain_lyrics: Option<String> },
    /// The LRCLIB search results.
    SearchResults(Vec<SearchTrack>),
    /// The lyrics text from lyrics.ovh.
    PlainText(String),
    /// The service answered 404.
    NotFound,
    /// The request failed for another reason (transport, status, body).
    Failed(String),
}

/// Why a chain ended without lyrics.
pub enum FetchError {
    /// The last source failed; the message describes how.
    Failed(String),
    /// The last source answered with something other than lyrics text.
    UnexpectedResponse,
}

/// What to do next.
pub enum FetchStep {
    /// Perform the request, then resume with the state and the answer.
    Request(FetchState, LyricsRequest),
    /// The chain is over.
    Done(Result<Vec<LyricLine>, FetchError>),
}

pub open spec fn opt_chars(o: Option<String>) -> Option<Seq<char>> {
    match o {
        Some(s) => Some(s@),
        None => None,
    }
}

/// The lines of a track record: the synced lyrics when non-empty, else the
/// plain lyrics as a single line at time zero when non-empty, else nothing.
pub open spec fn track_lines(synced: Option<Seq<char>>, plain: Option<Seq<char>>) -> Seq<
    LyricLineView,
> {
    match (synced, plain) {
        (Some(s), _) if s.len() > 0 => sort_by_time(parsed_lines(s)),
        (_, Some(p)) if p.len() > 0 => seq![LyricLineView { time_ms: 0, text: p }],
        _ => Seq::empty(),
    }
}

/// The index of the first search record whose artist matches `artist`
/// (ASCII case-insensitively), or `tracks.len()` when there is none.
pub open spec fn first_artist_match(tracks: Seq<SearchTrack>, artist: Seq<char>) -> nat
    decreases tracks.len(),
{
    if tracks.len() == 0 {
        0
    } else if eq_ignore_ascii_case(tracks[0].artist_name@, artist) {
        0
    } else {
        1 + first_artist_match(tracks.drop_first(), artist)
    }
}

/// The search record to use: the first whose artist matches, falling back to
/// the first record (always the first one when the artist is unknown).
pub open spec fn selected_track(tracks: Seq<SearchTrack>, artist: Seq<char>) -> int {
    if artist.len() > 0 && first_artist_match(tracks, artist) < tracks.len() {
        first_artist_match(tracks, artist) as int
    } else {
        0
    }
}

/// The lines a lookup answer provides.
pub open spec fn lookup_lines(resp: LyricsResponse) -> Seq<LyricLineView> {
    match resp {
        LyricsResponse::Track { synced_lyrics, plain_lyrics } => track_lines(
            opt_chars(synced_lyrics),
            opt_chars(plain_lyrics),
        ),
        _ => Seq::empty(),
    }
}

/// The lines a search answer provides.
pub open spec fn search_lines(resp: LyricsResponse, artist: Seq<char>) -> Seq<LyricLineView> {
    match resp {
        LyricsResponse::SearchResults(tracks) => {
            if tracks@.len() == 0 {
                Seq::empty()
            } else {
                let t = tracks@[selected_track(tracks@, artist)];
                track_lines(opt_chars(t.synced_lyrics), opt_chars(t.plain_lyrics))
            }
        },
        _ => Seq::empty(),
    }
}

/// The lines a lyrics.ovh text provides: the trimmed text as a single line at
/// time zero, or nothing when it is blank.
pub open spec fn plain_text_lines(text: Seq<char>) -> Seq<LyricLineView> {
    if trim(text).len() == 0 {
        Seq::empty()
    } else {
        seq![LyricLineView { time_ms: 0, text: trim(text) }]
    }
}

/// Bytes that stand for themselves in a URL path segment.
pub open spec fn is_unreserved(b: u8) -> bool {
    ||| (65 <= b && b <= 90)
    ||| (97 <= b && b <= 122)
    ||| (48 <= b && b <= 57)
    ||| b == 45
    ||| b == 95
    ||| b == 46
    ||| b == 126
}

/// An upper-case hexadecimal digit.
pub open spec fn hex_digit(v: u8) -> char {
    if v < 10 {
        (48 + v) as char
    } else {
        (55 + v) as char
    }
}

/// One byte of a path segment: itself when unreserved, else `%XX`.
pub open spec fn encode_byte(b: u8) -> Seq<char> {
    if is_unreserved(b) {
        seq![b as char]
    } else {
        seq!['%', hex_digit(b / 16), hex_digit(b % 16)]
    }
}

/// The percent-encoding of a byte string as a URL path segment.
pub open spec fn percent_encoded(bytes: Seq<u8>) -> Seq<char>
    decreases bytes.len(),
{
    if bytes.len() == 0 {
        Seq::empty()
    } else {
        encode_byte(bytes[0]) + percent_encoded(bytes.drop_first())
    }
}

/// The value of an upper-case hexadecimal digit.
pub open spec fn hex_value(c: char) -> int {
    if c <= '9' {
        c as int - 48
    } else {
        c as int - 55
    }
}

/// Percent-decoding: `%XY` stands for the byte with hex value `XY`; every
/// other character stands for its own code.
pub open spec fn percent_decoded(s: Seq<char>) -> Seq<u8>
    decreases s.len(),
{
    if s.len() == 0 {
        Seq::empty()
    } else if s[0] == '%' && s.len() >= 3 {
        seq![(hex_value(s[1]) * 16 + hex_value(s[2])) as u8] + percent_decoded(s.skip(3))
    } else {
        seq![s[0] as u8] + percent_decoded(s.skip(1))
    }
}

proof fn lemma_percent_encoded_push(bytes: Seq<u8>, b: u8)
    ensures
        percent_encoded(bytes.push(b)) == percent_encoded(bytes) + encode_byte(b),
    decreases bytes.len(),
{
    if bytes.len() == 0 {
        assert(bytes.push(b).drop_first() =~= Seq::<u8>::empty());
        assert(percent_encoded(bytes.push(b).drop_first()) == Seq::<char>::empty());
        assert(bytes.push(b)[0] == b);
        assert(percent_encoded(bytes.push(b)) =~= encode_byte(b));
    } else {
        assert(bytes.push(b).drop_first() =~= bytes.drop_first().push(b));
        lemma_percent_encoded_push(bytes.drop_first(), b);
        assert(percent_encoded(bytes.push(b)) =~= percent_encoded(bytes) + encode_byte(b));
    }
}

/// Percent-encoding loses nothing: decoding the encoded segment gives back
/// the original bytes.
pub proof fn lemma_percent_encoding_round_trips(bytes: Seq<u8>)
    ensures
        percent_decoded(percent_encoded(bytes)) == bytes,
    decreases bytes.len(),
{
    if bytes.len() > 0 {
        let b = bytes[0];
        let rest = percent_encoded(bytes.drop_first());
        lemma_percent_encoding_round_trips(bytes.drop_first());
        let s = encode_byte(b) + rest;
        if is_unreserved(b) {
            assert(s[0] == b as char);
            assert(s.skip(1) =~= rest);
            assert((b as char) as u8 == b);
        } else {
            assert(s.skip(3) =~= rest);
            assert(hex_value(hex_digit(b / 16)) * 16 + hex_value(hex_digit(b % 16)) == b);
        }
        assert(percent_decoded(s) =~= bytes);
    }
}

/// The lyrics.ovh address of a track.
pub open spec fn lyrics_ovh_url(artist: Seq<char>, title: Seq<char>) -> Seq<char> {
    "https://api.lyrics.ovh/v1/"@ + percent_encoded(encode_utf8(artist)) + "/"@ + percent_encoded(
        encode_utf8(title),
    )
}

/// `req` is the search request for `title` and `artist`.
pub open spec fn is_search_request(req: LyricsRequest, title: Seq<char>, artist: Seq<char>) -> bool {
    &&& req matches LyricsRequest::LrclibSearch { track_name, artist: artist_name }
    &&& track_name@ == title
    &&& if artist.len() == 0 {
        artist_name is None
    } else {
        artist_name matches Some(a) && a@ == artist
    }
}

/// `step` continues the chain at `stage` for `title` and `artist`.
pub open spec fn continues_at(
    step: FetchStep,
    stage: FetchStage,
    title: Seq<char>,
    artist: Seq<char>,
) -> bool {
    step matches FetchStep::Request(st, _) && st.stage == stage && st.title@ == title
        && st.artist@ == artist
}

/// `step` ends the chain with exactly `lines`.
pub open spec fn ends_with(step: FetchStep, lines: Seq<LyricLineView>) -> bool {
    step matches FetchStep::Done(Ok(v)) && lines_view(v@) == lines
}

impl LyricsFetcher {
    /// Starts the chain for a track. Title and artist are trimmed first; with
    /// no title there is nothing to look up. The exact lookup needs both an
    /// artist and a known duration; otherwise the chain starts with the search.
    pub fn begin(title: &str, artist: &str, duration_ms: u64) -> (r: FetchStep)
        ensures
            ({
                let t = trim(title@);
                let a = trim(artist@);
                &&& t.len() == 0 ==> ends_with(r, Seq::empty())
                &&& t.len() > 0 && a.len() > 0 && duration_ms > 0 ==> {
                    &&& continues_at(r, FetchStage::Lookup, t, a)
                    &&& r->Request_1 matches LyricsRequest::LrclibGet {
                        track_name,
                        artist_name,
                        duration_s,
                    } && track_name@ == t && artist_name@ == a && duration_s == duration_ms
                        / 1000
                }
                &&& t.len() > 0 && !(a.len() > 0 && duration_ms > 0) ==> {
                    &&& continues_at(r, FetchStage::Search, t, a)
                    &&& is_search_request(r->Request_1, t, a)
                }
            }),
    {
        let title = trimmed(title);
        let artist = trimmed(artist);
        if title.as_str().is_empty() {
            let v: Vec<LyricLine> = Vec::new();
            assert(lines_view(v@) =~= Seq::<LyricLineView>::empty());
            return FetchStep::Done(Ok(v));
        }
        if !artist.as_str().is_empty() && duration_ms > 0 {
            let req = LyricsRequest::LrclibGet {
                track_name: title.clone(),
                artist_name: artist.clone(),
                duration_s: duration_ms / 1000,
            };
            FetchStep::Request(FetchState { title, artist, stage: FetchStage::Lookup }, req)
        } else {
            let req = search_request(&title, &artist);
            FetchStep::Request(FetchState { title, artist, stage: FetchStage::Search }, req)
        }
    }

    /// Continues the chain with the answer to the request `state` asked for.
    ///
    /// After the lookup: lyrics end the chain, anything else (no lyrics, not
    /// found, a failure) moves on to the search. After the search: lyrics end
    /// the chain; otherwise, with no artist the chain ends empty, with one it
    /// moves on to lyrics.ovh. The lyrics.ovh answer ends the chain: its text,
    /// nothing when not found, or the failure.
    pub fn resume(state: FetchState, response: LyricsResponse) -> (r: FetchStep)
        ensures
            ({
                let t = state.title@;
                let a = state.artist@;
                match state.stage {
                    FetchStage::Lookup => if lookup_lines(response).len() > 0 {
                        ends_with(r, lookup_lines(response))
                    } else {
                        continues_at(r, FetchStage::Search, t, a) && is_search_request(
                            r->Request_1,
                            t,
                            a,
                        )
                    },
                    FetchStage::Search => if search_lines(response, a).len() > 0 {
                        ends_with(r, search_lines(response, a))
                    } else if a.len() == 0 {
                        ends_with(r, Seq::empty())
                    } else {
                        &&& continues_at(r, FetchStage::Fallback, t, a)
                        &&& r->Request_1 matches LyricsRequest::LyricsOvh { url }
                        &&& url@ == lyrics_ovh_url(a, t)
                    },
                    FetchStage::Fallback => match response {
                        LyricsResponse::PlainText(text) => ends_with(r, plain_text_lines(text@)),
                        LyricsResponse::NotFound => ends_with(r, Seq::empty()),
                        LyricsResponse::Failed(msg) => r matches FetchStep::Done(
                            Err(FetchError::Failed(m)),
                        ) && m@ == msg@,
                        _ => r matches FetchStep::Done(Err(FetchError::UnexpectedResponse)),
                    },
                }
            }),
    {
        match state.stage {
            FetchStage::Lookup => {
                let lines = match response {
                    LyricsResponse::Track { synced_lyrics, plain_lyrics } => track_to_lines(
                        synced_lyrics,
                        plain_lyrics,
                    ),
                    _ => {
                        let v: Vec<LyricLine> = Vec::new();
                        assert(lines_view(v@) =~= Seq::<LyricLineView>::empty());
                        v
                    },
                };
                if lines.len() > 0 {
                    return FetchStep::Done(Ok(lines));
                }
                let req = search_request(&state.title, &state.artist);
                FetchStep::Request(FetchState { stage: FetchStage::Search, ..state }, req)
            },
            FetchStage::Search => {
                let lines = match response {
                    LyricsResponse::SearchResults(tracks) => {
                        if tracks.len() == 0 {
                            let v: Vec<LyricLine> = Vec::new();
                            assert(lines_view(v@) =~= Seq::<LyricLineView>::empty());
                            v
                        } else {
                            let i = select_search_track(&tracks, &state.artist);
                            track_to_lines(
                                tracks[i].synced_lyrics.clone(),
                                tracks[i].plain_lyrics.clone(),
                            )
                        }
                    },
                    _ => {
                        let v: Vec<LyricLine> = Vec::new();
                        assert(lines_view(v@) =~= Seq::<LyricLineView>::empty());
                        v
                    },
                };
                if lines.len() > 0 {
                    return FetchStep::Done(Ok(lines));
                }
                if state.artist.as_str().is_empty() {
                    return FetchStep::Done(Ok(lines));
                }
                let url = lyrics_ovh_url_of(&state.artist, &state.title);
                FetchStep::Request(
                    FetchState { stage: FetchStage::Fallback, ..state },
                    LyricsRequest::LyricsOvh { url },
                )
            },
            FetchStage::Fallback => match response {
                LyricsResponse::PlainText(text) => {
                    let t = trimmed(text.as_str());
                    let mut v: Vec<LyricLine> = Vec::new();
                    if !t.as_str().is_empty() {
                        v.push(LyricLine { time_ms: 0, text: t });
                    }
                    assert(lines_view(v@) =~= plain_text_lines(text@));
                    FetchStep::Done(Ok(v))
                },
                LyricsResponse::NotFound => {
                    let v: Vec<LyricLine> = Vec::new();
                    assert(lines_view(v@) =~= Seq::<LyricLineView>::empty());
                    FetchStep::Done(Ok(v))
                },
                LyricsResponse::Failed(msg) => FetchStep::Done(Err(FetchError::Failed(msg))),
                _ => FetchStep::Done(Err(FetchError::UnexpectedResponse)),
            },
        }
    }
}

/// The search request for a track.
fn search_request(title: &String, artist: &String) -> (r: LyricsRequest)
    ensures
        is_search_request(r, title@, artist@),
{
    LyricsRequest::LrclibSearch {
        track_name: title.clone(),
        artist: if artist.as_str().is_empty() {
            None
        } else {
            Some(artist.clone())
        },
    }
}

/// The lines of a track record: the synced lyrics when non-empty, else the
/// plain lyrics as a single line at time zero when non-empty, else nothing.
pub fn track_to_lines(synced_lyrics: Option<String>, plain_lyrics: Option<String>) -> (r: Vec<
    LyricLine,
>)
    ensures
        lines_view(r@) == track_lines(opt_chars(synced_lyrics), opt_chars(plain_lyrics)),
{
    if let Some(synced) = synced_lyrics {
        if !synced.as_str().is_empty() {
            return parse_lrc(synced.as_str());
        }
    }
    let mut v: Vec<LyricLine> = Vec::new();
    if let Some(plain) = plain_lyrics {
        if !plain.as_str().is_empty() {
            v.push(LyricLine { time_ms: 0, text: plain });
        }
    }
    assert(lines_view(v@) =~= track_lines(opt_chars(synced_lyrics), opt_chars(plain_lyrics)));
    v
}

/// The index of the search record to use.
fn select_search_track(tracks: &Vec<SearchTrack>, artist: &String) -> (r: usize)
    requires
        tracks.len() > 0,
    ensures
        r == selected_track(tracks@, artist@),
        r < tracks.len(),
{
    if artist.as_str().is_empty() {
        return 0;
    }
    let mut i: usize = 0;
    assert(tracks@.skip(0) =~= tracks@);
    while i < tracks.len()
        invariant
            i <= tracks.len(),
            artist@.len() > 0,
            first_artist_match(tracks@, artist@) == i + first_artist_match(
                tracks@.skip(i as int),
                artist@,
            ),
        decreases tracks.len() - i,
    {
        let ghost rest = tracks@.skip(i as int);
        if eq_ignore_ascii_case_str(tracks[i].artist_name.as_str(), artist.as_str()) {
            assert(rest[0] == tracks@[i as int]);
            assert(first_artist_match(rest, artist@) == 0);
            return i;
        }
        assert(rest.drop_first() =~= tracks@.skip(i + 1));
        i = i + 1;
    }
    assert(tracks@.skip(i as int).len() == 0);
    0
}

/// Percent-encodes every UTF-8 byte of `s` outside the URL-safe unreserved set
/// (`A-Z a-z 0-9 - _ . ~`), with upper-case hex digits, for use as a URL path
/// segment.
pub fn percent_encode_path_segment(s: &str) -> (r: String)
    ensures
        r@ == percent_encoded(s.spec_bytes()),
{
    let bytes = s.as_bytes();
    let mut out = String::new();
    let mut i: usize = 0;
    while i < bytes.len()
        invariant
            i <= bytes.len(),
            bytes@ == s.spec_bytes(),
            out@ == percent_encoded(bytes@.take(i as int)),
        decreases bytes.len() - i,
    {
        let b = bytes[i];
        proof {
            assert(bytes@.take(i + 1) =~= bytes@.take(i as int).push(b));
            lemma_percent_encoded_push(bytes@.take(i as int), b);
        }
        if (65 <= b && b <= 90) || (97 <= b && b <= 122) || (48 <= b && b <= 57) || b == 45 || b
            == 95 || b == 46 || b == 126 {
            push_char(&mut out, b as char);
        } else {
            push_char(&mut out, '%');
            push_char(&mut out, hex_digit_char(b / 16));
            push_char(&mut out, hex_digit_char(b % 16));
        }
        i = i + 1;
        assert(out@ =~= percent_encoded(bytes@.take(i as int)));
    }
    assert(bytes@.take(bytes.len() as int) =~= bytes@);
    out
}

fn hex_digit_char(v: u8) -> (r: char)
    requires
        v < 16,
    ensures
        r == hex_digit(v),
{
    if v < 10 {
        (48 + v) as char
    } else {
        (55 + v) as char
    }
}

/// The lyrics.ovh address of a track.
fn lyrics_ovh_url_of(artist: &String, title: &String) -> (r: String)
    ensures
        r@ == lyrics_ovh_url(artist@, title@),
{
    let mut url = "https://api.lyrics.ovh/v1/".to_owned();
    let a = percent_encode_path_segment(artist.as_str());
    url.append(a.as_str());
    url.append("/");
    let t = percent_encode_path_segment(title.as_str());
    url.append(t.as_str());
    url
}

} // verus!

verus! {

/// The search record used is the first whose artist matches the track's
/// artist (ignoring ASCII case): no earlier record matches, and the chosen
/// one matches whenever any record does (with a known artist).
pub proof fn lemma_search_picks_first_matching_artist(tracks: Seq<SearchTrack>, artist: Seq<char>)
    requires
        tracks.len() > 0,
    ensures
        0 <= selected_track(tracks, artist) < tracks.len(),
        artist.len() > 0 ==> forall|j: int|
            0 <= j < selected_track(tracks, artist) ==> !eq_ignore_ascii_case(
                #[trigger] tracks[j].artist_name@,
                artist,
            ),
        artist.len() > 0 && (exists|k: int|
            0 <= k < tracks.len() && eq_ignore_ascii_case(#[trigger] tracks[k].artist_name@, artist))
            ==> eq_ignore_ascii_case(tracks[selected_track(tracks, artist)].artist_name@, artist),
{
    lemma_first_artist_match(tracks, artist);
}

proof fn lemma_first_artist_match(tracks: Seq<SearchTrack>, artist: Seq<char>)
    ensures
        first_artist_match(tracks, artist) <= tracks.len(),
        forall|j: int|
            0 <= j < first_artist_match(tracks, artist) ==> !eq_ignore_ascii_case(
                #[trigger] tracks[j].artist_name@,
                artist,
            ),
        first_artist_match(tracks, artist) < tracks.len() ==> eq_ignore_ascii_case(
            tracks[first_artist_match(tracks, artist) as int].artist_name@,
            artist,
        ),
    decreases tracks.len(),
{
    if tracks.len() > 0 && !eq_ignore_ascii_case(tracks[0].artist_name@, artist) {
        let rest = tracks.drop_first();
        lemma_first_artist_match(rest, artist);
        assert forall|j: int| 0 <= j < first_artist_match(tracks, artist) implies !eq_ignore_ascii_case(
            #[trigger] tracks[j].artist_name@,
            artist,
        ) by {
            if j > 0 {
                assert(tracks[j] == rest[j - 1]);
            }
        }
        if first_artist_match(tracks, artist) < tracks.len() {
            assert(tracks[first_artist_match(tracks, artist) as int] == rest[first_artist_match(rest, artist) as int]);
        }
    }
}

} // verus!
