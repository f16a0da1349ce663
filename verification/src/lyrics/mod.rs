pub mod cache;
pub mod fetcher;
pub mod parser;

use vstd::prelude::*;

verus! {

/// One lyric line and the playback time (in milliseconds) at which it starts.
#[derive(Clone, Debug)]
pub struct LyricLine {
    pub time_ms: u64,
    pub text: String,
}

/// The mathematical content of a `LyricLine`.
pub struct LyricLineView {
    pub time_ms: u64,
    pub text: Seq<char>,
}

impl View for LyricLine {
    type V = LyricLineView;

    open spec fn view(&self) -> LyricLineView {
        LyricLineView { time_ms: self.time_ms, text: self.text@ }
    }
}

/// The views of a sequence of lyric lines.
pub open spec fn lines_view(lines: Seq<LyricLine>) -> Seq<LyricLineView> {
    lines.map_values(|l: LyricLine| l@)
}

} // verus!
