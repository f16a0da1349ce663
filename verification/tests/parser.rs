use lyra::lyrics::parser::parse_lrc;

const SAMPLE_LRC: &str = "[ar:Lyra Test Artist]
[ti:Sample Song]
[al:Sample Album]
[length:00:15]

[00:00.00]First line
[00:03.50]Second line
[00:07.25]Third line
[00:11.000]Fourth line
[00:15.00]Fifth line
";

#[test]
fn parses_fixture_sorted_with_metadata_stripped() {
    let input = SAMPLE_LRC;
    let lines = parse_lrc(input);

    assert_eq!(lines.len(), 5);
    assert!(lines.windows(2).all(|w| w[0].time_ms <= w[1].time_ms));
    assert_eq!(lines[0].time_ms, 0);
    assert_eq!(lines[0].text, "First line");
    assert_eq!(lines[4].time_ms, 15_000);
    assert_eq!(lines[4].text, "Fifth line");
}

#[test]
fn parses_two_digit_and_three_digit_fractions() {
    let lines = parse_lrc("[00:01.50]two digit\n[00:02.500]three digit");
    assert_eq!(lines[0].time_ms, 1_500);
    assert_eq!(lines[1].time_ms, 2_500);
}

#[test]
fn ignores_non_timestamp_lines() {
    let lines = parse_lrc("[ar:Some Artist]\n[00:00.00]only line\n\nplain text, no tag");
    assert_eq!(lines.len(), 1);
    assert_eq!(lines[0].text, "only line");
}

#[test]
fn sorts_out_of_order_lines_by_time() {
    let lines = parse_lrc("[00:20.00]c\n[00:05.00]a\n[00:10.00]b");
    let times: Vec<u64> = lines.iter().map(|l| l.time_ms).collect();
    assert_eq!(times, vec![5_000, 10_000, 20_000]);
    assert_eq!(lines[0].text, "a");
    assert_eq!(lines[2].text, "c");
}

#[test]
fn equal_timestamps_keep_input_order() {
    let lines = parse_lrc("[00:05.00]second\n[00:01.00]first\n[00:05.00]third");
    let texts: Vec<&str> = lines.iter().map(|l| l.text.as_str()).collect();
    assert_eq!(texts, vec!["first", "second", "third"]);
}

#[test]
fn minutes_seconds_and_fraction_combine() {
    let lines = parse_lrc("[02:03.45]x\n[10:00.001]y");
    assert_eq!(lines[0].time_ms, 2 * 60_000 + 3_000 + 450);
    assert_eq!(lines[1].time_ms, 600_001);
}

#[test]
fn surrounding_whitespace_and_crlf_are_trimmed() {
    let lines = parse_lrc("   [00:01.00]  padded text \t\r\n[00:02.00]next\r\n");
    assert_eq!(lines.len(), 2);
    assert_eq!(lines[0].text, "  padded text");
    assert_eq!(lines[1].text, "next");
}

#[test]
fn text_keeps_later_brackets() {
    let lines = parse_lrc("[00:01.00]a ] b [c]");
    assert_eq!(lines[0].text, "a ] b [c]");
}

#[test]
fn rejects_malformed_timestamps() {
    let lines = parse_lrc(
        "[00:01.5]one digit\n[00:01.5000]four digits\n[0001.50]no colon\n[00:01]no dot\n[a:01.50]letters\n[-1:01.50]minus\n[00:01.50 no close",
    );
    assert!(lines.is_empty());
}

#[test]
fn accepts_explicit_plus_signs() {
    let lines = parse_lrc("[+1:+2.+5]signed");
    assert_eq!(lines.len(), 1);
    assert_eq!(lines[0].time_ms, 60_000 + 2_000 + 50);
}

#[test]
fn drops_timestamps_beyond_the_representable_range() {
    let lines = parse_lrc("[999999999999999999:00.00]huge\n[00:00.00]fine");
    assert_eq!(lines.len(), 1);
    assert_eq!(lines[0].text, "fine");
}

#[test]
fn empty_input_has_no_lines() {
    assert!(parse_lrc("").is_empty());
    assert!(parse_lrc("\n\n").is_empty());
}

#[test]
fn non_ascii_text_is_kept_intact() {
    let lines = parse_lrc("[00:01.00]Ça va — ok ✓");
    assert_eq!(lines[0].text, "Ça va — ok ✓");
}
