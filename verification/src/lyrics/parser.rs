//! LRC lyrics: `[mm:ss.xx]text` per line.

use vstd::prelude::*;

use crate::lyrics::{lines_view, LyricLine, LyricLineView};
use crate::text::{
    char_index, chars_of, find_char, is_whitespace, lemma_char_index, parse_u64,
    parse_u64_range, split_once, string_from_range, trim, trim_end, trim_range, trim_start,
};

verus! {

/// The pieces of `s` between `'\n'` separators. A `'\r'` before a separator
/// stays with its line; it is whitespace, so trimming removes it.
pub open spec fn split_lines(s: Seq<char>) -> Seq<Seq<char>>
    decreases s.len(),
{
    let i = char_index(s, '\n');
    if i < s.len() {
        seq![s.take(i as int)] + split_lines(s.skip(i as int + 1))
    } else {
        seq![s]
    }
}

/// A timestamp tag `mm:ss.xx` (hundredths) or `mm:ss.xxx` (thousandths), in
/// milliseconds. Minutes and seconds are unbounded decimal numbers; a tag
/// whose total does not fit in 64 bits is not a timestamp.
pub open spec fn parse_timestamp(tag: Seq<char>) -> Option<u64> {
    match split_once(tag, ':') {
        None => None,
        Some((mm, rest)) => match split_once(rest, '.') {
            None => None,
            Some((ss, frac)) => {
                if frac.len() == 2 || frac.len() == 3 {
                    match (parse_u64(mm), parse_u64(ss), parse_u64(frac)) {
                        (Some(m), Some(sec), Some(f)) => {
                            let frac_ms = if frac.len() == 2 {
                                f * 10
                            } else {
                                f as int
                            };
                            let total = m * 60_000 + sec * 1_000 + frac_ms;
                            if total <= u64::MAX {
                                Some(total as u64)
                            } else {
                                None
                            }
                        },
                        _ => None,
                    }
                } else {
                    None
                }
            },
        },
    }
}

/// One LRC line: after trimming, `[` + timestamp tag + `]` + text. Anything
/// else (metadata tags such as `[ar:...]`, blank lines, plain text) is not a
/// lyric line.
pub open spec fn parse_line(line: Seq<char>) -> Option<LyricLineView> {
    let t = trim(line);
    if t.len() > 0 && t[0] == '[' {
        match split_once(t.drop_first(), ']') {
            None => None,
            Some((tag, text)) => match parse_timestamp(tag) {
                None => None,
                Some(time_ms) => Some(LyricLineView { time_ms, text }),
            },
        }
    } else {
        None
    }
}

/// The lyric lines of `s`, in input order.
pub open spec fn parsed_lines(s: Seq<char>) -> Seq<LyricLineView> {
    split_lines(s).filter_map(|l: Seq<char>| parse_line(l))
}

/// Where a stable sort by time puts a line starting at `t` into the already
/// sorted `sorted`: after every line that starts at or before `t`.
pub open spec fn insertion_point(sorted: Seq<LyricLineView>, t: u64) -> nat
    decreases sorted.len(),
{
    if sorted.len() == 0 {
        0
    } else if sorted.last().time_ms <= t {
        sorted.len()
    } else {
        insertion_point(sorted.drop_last(), t)
    }
}

/// The stable sort of `s` by start time.
pub open spec fn sort_by_time(s: Seq<LyricLineView>) -> Seq<LyricLineView>
    decreases s.len(),
{
    if s.len() == 0 {
        Seq::empty()
    } else {
        let r = sort_by_time(s.drop_last());
        r.insert(insertion_point(r, s.last().time_ms) as int, s.last())
    }
}

/// Parses LRC-formatted lyrics (`[mm:ss.xx]text` per line) into lines sorted
/// by `time_ms` (stably: lines with equal times keep their input order).
/// Lines that are not `[mm:ss.xx]` timestamps (metadata tags like `[ar:...]`,
/// blank lines) are dropped.
pub fn parse_lrc(input: &str) -> (r: Vec<LyricLine>)
    ensures
        lines_view(r@) == sort_by_time(parsed_lines(input@)),
{
    let chars = chars_of(input);
    let n = chars.len();
    let ghost s = chars@;
    let ghost mut done: Seq<Seq<char>> = Seq::empty();
    let mut result: Vec<LyricLine> = Vec::new();
    let mut start: usize = 0;
    proof {
        assert(s.skip(0) =~= s);
        assert(lines_view(result@) =~= Seq::<LyricLineView>::empty());
    }
    loop
        invariant_except_break
            split_lines(s) == done + split_lines(s.skip(start as int)),
        invariant
            start <= n,
            n == chars.len(),
            s == chars@,
            s == input@,
            lines_view(result@) == sort_by_time(
                done.filter_map(|l: Seq<char>| parse_line(l)),
            ),
        ensures
            lines_view(result@) == sort_by_time(split_lines(s).filter_map(|l: Seq<char>| parse_line(l))),
        decreases n - start,
    {
        let e = find_char(&chars, start, n, '\n');
        let ghost rest = s.skip(start as int);
        let ghost piece = s.subrange(start as int, e as int);
        proof {
            assert(chars@.subrange(start as int, n as int) =~= rest);
            if e < n {
                assert(rest.take(e - start) =~= piece);
                assert(rest.skip(e - start + 1) =~= s.skip(e + 1));
                assert(split_lines(rest) == seq![piece] + split_lines(s.skip(e + 1)));
            } else {
                assert(rest =~= piece);
                assert(split_lines(rest) == seq![piece]);
            }
        }
        let parsed = parse_line_range(&chars, start, e);
        let ghost old_view = lines_view(result@);
        proof {
            let f = |l: Seq<char>| parse_line(l);
            let nd = done.push(piece);
            assert(nd.drop_last() =~= done);
            assert(nd.filter_map(f) == match parse_line(piece) {
                Some(x) => done.filter_map(f) + seq![x],
                None => done.filter_map(f),
            });
        }
        match parsed {
            Some(line) => {
                proof {
                    let f = |l: Seq<char>| parse_line(l);
                    let x = done.push(piece).filter_map(f);
                    assert(x.drop_last() =~= done.filter_map(f));
                }
                insert_by_time(&mut result, line);
            },
            None => {},
        }
        proof {
            if e < n {
                assert(done + (seq![piece] + split_lines(s.skip(e + 1))) =~= done.push(piece)
                    + split_lines(s.skip(e + 1)));
            } else {
                assert(done + seq![piece] =~= done.push(piece));
            }
            done = done.push(piece);
            if e == n {
                assert(split_lines(s) == done);
            }
        }
        if e == n {
            break;
        }
        start = e + 1;
    }
    result
}

/// Inserts `line` into the time-sorted `lines` after every line that starts at
/// or before it.
fn insert_by_time(lines: &mut Vec<LyricLine>, line: LyricLine)
    ensures
        lines_view(final(lines)@) == lines_view(old(lines)@).insert(
            insertion_point(lines_view(old(lines)@), line.time_ms) as int,
            line@,
        ),
{
    let ghost v = lines_view(lines@);
    let t = line.time_ms;
    let mut k = lines.len();
    assert(v.take(k as int) =~= v);
    while k > 0 && lines[k - 1].time_ms > t
        invariant
            k <= lines.len(),
            v == lines_view(lines@),
            insertion_point(v, t) == insertion_point(v.take(k as int), t),
        decreases k,
    {
        assert(v.take(k as int).drop_last() =~= v.take(k - 1));
        k = k - 1;
    }
    proof {
        if k > 0 {
            assert(v.take(k as int).last() == v[k - 1]);
        } else {
            assert(v.take(0) =~= Seq::<LyricLineView>::empty());
        }
    }
    let ghost x = line@;
    lines.insert(k, line);
    assert(lines_view(lines@) =~= v.insert(k as int, x));
}

/// `parse_line` of `chars[from..to]`.
fn parse_line_range(chars: &Vec<char>, from: usize, to: usize) -> (r: Option<LyricLine>)
    requires
        from <= to <= chars.len(),
    ensures
        match r {
            Some(l) => parse_line(chars@.subrange(from as int, to as int)) == Some(l@),
            None => parse_line(chars@.subrange(from as int, to as int)) is None,
        },
{
    let ghost line = chars@.subrange(from as int, to as int);
    let (a, b) = trim_range(chars, from, to);
    let ghost t = chars@.subrange(a as int, b as int);
    if !(a < b && chars[a] == '[') {
        return None;
    }
    let j = find_char(chars, a + 1, b, ']');
    proof {
        assert(t.drop_first() =~= chars@.subrange(a + 1, b as int));
    }
    if j == b {
        return None;
    }
    proof {
        let inner = chars@.subrange(a + 1, b as int);
        assert(inner.take(j - (a + 1)) =~= chars@.subrange(a + 1, j as int));
        assert(inner.skip(j - (a + 1) + 1) =~= chars@.subrange(j + 1, b as int));
    }
    match parse_timestamp_range(chars, a + 1, j) {
        None => None,
        Some(time_ms) => {
            let text = string_from_range(chars, j + 1, b);
            Some(LyricLine { time_ms, text })
        },
    }
}

/// `parse_timestamp` of `chars[from..to]`.
fn parse_timestamp_range(chars: &Vec<char>, from: usize, to: usize) -> (r: Option<u64>)
    requires
        from <= to <= chars.len(),
    ensures
        r == parse_timestamp(chars@.subrange(from as int, to as int)),
{
    let ghost tag = chars@.subrange(from as int, to as int);
    let i = find_char(chars, from, to, ':');
    if i == to {
        return None;
    }
    let k = find_char(chars, i + 1, to, '.');
    proof {
        assert(tag.take(i - from) =~= chars@.subrange(from as int, i as int));
        assert(tag.skip(i - from + 1) =~= chars@.subrange(i + 1, to as int));
    }
    if k == to {
        return None;
    }
    proof {
        let rest = chars@.subrange(i + 1, to as int);
        assert(rest.take(k - (i + 1)) =~= chars@.subrange(i + 1, k as int));
        assert(rest.skip(k - (i + 1) + 1) =~= chars@.subrange(k + 1, to as int));
    }
    let frac_len = to - (k + 1);
    if frac_len != 2 && frac_len != 3 {
        return None;
    }
    let mm = parse_u64_range(chars, from, i);
    let ss = parse_u64_range(chars, i + 1, k);
    let frac = parse_u64_range(chars, k + 1, to);
    match (mm, ss, frac) {
        (Some(m), Some(s), Some(f)) => {
            let frac_ms: u128 = if frac_len == 2 {
                (f as u128) * 10
            } else {
                f as u128
            };
            let total: u128 = (m as u128) * 60_000 + (s as u128) * 1_000 + frac_ms;
            if total <= u64::MAX as u128 {
                Some(total as u64)
            } else {
                None
            }
        },
        _ => None,
    }
}

} // verus!

verus! {

/// Lines in nondecreasing order of start time.
pub open spec fn sorted_by_time(s: Seq<LyricLineView>) -> bool {
    forall|i: int, j: int| 0 <= i <= j < s.len() ==> s[i].time_ms <= s[j].time_ms
}

proof fn lemma_insertion_point(sorted: Seq<LyricLineView>, t: u64)
    requires
        sorted_by_time(sorted),
    ensures
        insertion_point(sorted, t) <= sorted.len(),
        forall|i: int| 0 <= i < insertion_point(sorted, t) ==> sorted[i].time_ms <= t,
        forall|i: int| insertion_point(sorted, t) <= i < sorted.len() ==> sorted[i].time_ms > t,
    decreases sorted.len(),
{
    if sorted.len() > 0 && sorted.last().time_ms > t {
        let d = sorted.drop_last();
        assert(sorted_by_time(d));
        lemma_insertion_point(d, t);
        assert forall|i: int| 0 <= i < d.len() implies #[trigger] sorted[i] == d[i] by {}
    } else if sorted.len() > 0 {
        assert forall|i: int| 0 <= i < sorted.len() implies sorted[i].time_ms <= t by {
            assert(sorted[i].time_ms <= sorted[sorted.len() - 1].time_ms);
        }
    }
}

/// `parse_lrc` returns its lines in nondecreasing order of start time.
pub proof fn lemma_sort_by_time_is_sorted(s: Seq<LyricLineView>)
    ensures
        sorted_by_time(sort_by_time(s)),
    decreases s.len(),
{
    if s.len() > 0 {
        let r = sort_by_time(s.drop_last());
        lemma_sort_by_time_is_sorted(s.drop_last());
        let x = s.last();
        let k = insertion_point(r, x.time_ms) as int;
        lemma_insertion_point(r, x.time_ms);
        r.insert_ensures(k, x);
        let out = r.insert(k, x);
        assert forall|i: int, j: int| 0 <= i <= j < out.len() implies out[i].time_ms
            <= out[j].time_ms by {
            let ri = if i < k { i } else { i - 1 };
            let rj = if j < k { j } else { j - 1 };
            if i < k && j > k {
                assert(out[i] == r[i]);
                assert(out[j] == r[j - 1]);
            } else if i < k && j == k {
                assert(out[i] == r[i]);
            } else if i == k && j > k {
                assert(out[j] == r[j - 1]);
            } else if i > k {
                assert(out[i] == r[i - 1]);
                assert(out[j] == r[j - 1]);
            } else if j < k {
                assert(out[i] == r[i]);
                assert(out[j] == r[j]);
            }
        }
    }
}

/// `parse_lrc` neither loses nor invents lines: its result holds exactly the
/// parsed lines of the input, each as often as it occurs there.
pub proof fn lemma_sort_by_time_is_permutation(s: Seq<LyricLineView>)
    ensures
        sort_by_time(s).to_multiset() == s.to_multiset(),
    decreases s.len(),
{
    broadcast use vstd::seq_lib::group_to_multiset_ensures;

    if s.len() == 0 {
        assert(sort_by_time(s) =~= s);
    } else {
        let d = s.drop_last();
        let x = s.last();
        let r = sort_by_time(d);
        lemma_sort_by_time_is_permutation(d);
        let k = insertion_point(r, x.time_ms) as int;
        let out = r.insert(k, x);
        assert(k <= r.len()) by {
            lemma_insertion_point_bound(r, x.time_ms);
        }
        r.insert_ensures(k, x);
        assert(out.remove(k) =~= r);
        assert(out[k] == x);
        assert(d.push(x) =~= s);
        assert(out.to_multiset().remove(x) =~= r.to_multiset());
        assert(out.to_multiset().count(x) > 0) by {
            assert(out.contains(x));
        }
        assert(out.to_multiset() =~= r.to_multiset().insert(x));
    }
}

proof fn lemma_insertion_point_bound(sorted: Seq<LyricLineView>, t: u64)
    ensures
        insertion_point(sorted, t) <= sorted.len(),
    decreases sorted.len(),
{
    if sorted.len() > 0 && sorted.last().time_ms > t {
        lemma_insertion_point_bound(sorted.drop_last(), t);
    }
}

/// Every line `parse_lrc` returns is the parse of one line of its input.
pub proof fn lemma_parsed_line_comes_from_input(s: Seq<char>, i: int)
    requires
        0 <= i < sort_by_time(parsed_lines(s)).len(),
    ensures
        exists|l: Seq<char>|
            #[trigger] split_lines(s).contains(l) && parse_line(l) == Some(
                sort_by_time(parsed_lines(s))[i],
            ),
{
    broadcast use vstd::seq_lib::group_to_multiset_ensures;

    let p = parsed_lines(s);
    let out = sort_by_time(p);
    lemma_sort_by_time_is_permutation(p);
    let x = out[i];
    assert(out.contains(x));
    assert(out.to_multiset().count(x) > 0);
    assert(p.contains(x));
    split_lines(s).lemma_filter_map_contains(|l: Seq<char>| parse_line(l), x);
}

} // verus!

verus! {

/// Every line that trims to `[` + a valid timestamp tag + `]` + text is a
/// lyric line with that time and exactly that text, the empty text included
/// (a blank timed line ends the previous line, e.g. for an instrumental gap).
pub proof fn lemma_timed_line_is_kept(tag: Seq<char>, text: Seq<char>, t: u64)
    requires
        parse_timestamp(tag) == Some(t),
        !tag.contains(']'),
        trim(text) == text,
    ensures
        parse_line(seq!['['] + tag + seq![']'] + text) == Some(LyricLineView { time_ms: t, text }),
{
    let line = seq!['['] + tag + seq![']'] + text;
    assert(line[0] == '[');
    assert(!is_whitespace(line[0]));
    assert(trim_start(line) == line);
    // The line ends in the text's last character, or in `]` when it is empty.
    if text.len() == 0 {
        assert(line.last() == ']');
        assert(trim_end(line) == line);
    } else {
        assert(trim_end(text) == text) by {
            lemma_trim_start_of_trimmed_end(text);
        }
        assert(!is_whitespace(text.last())) by {
            if is_whitespace(text.last()) {
                lemma_trim_end_shrinks(text.drop_last());
            }
        }
        assert(line.last() == text.last());
        assert(trim_end(line) == line);
    }
    assert(trim(line) == line);
    let inner = line.drop_first();
    assert(inner =~= tag + seq![']'] + text);
    lemma_char_index(inner, ']', tag.len() as int);
    assert(inner.take(tag.len() as int) =~= tag);
    assert(inner.skip(tag.len() as int + 1) =~= text);
}

/// For a sequence that is its own trim, its last character (if any) is not
/// whitespace.
proof fn lemma_trim_start_of_trimmed_end(s: Seq<char>)
    requires
        trim(s) == s,
    ensures
        trim_end(s) == s,
{
    lemma_trim_start_shrinks(s);
    if trim_start(s) != s {
        lemma_trim_end_shrinks(trim_start(s));
        assert(trim(s).len() < s.len());
    }
}

proof fn lemma_trim_start_shrinks(s: Seq<char>)
    ensures
        trim_start(s).len() <= s.len(),
        trim_start(s) != s ==> trim_start(s).len() < s.len(),
    decreases s.len(),
{
    if s.len() > 0 && is_whitespace(s[0]) {
        lemma_trim_start_shrinks(s.drop_first());
    }
}

proof fn lemma_trim_end_shrinks(s: Seq<char>)
    ensures
        trim_end(s).len() <= s.len(),
    decreases s.len(),
{
    if s.len() > 0 && is_whitespace(s.last()) {
        lemma_trim_end_shrinks(s.drop_last());
    }
}

} // verus!
