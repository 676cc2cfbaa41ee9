//! Line-buffered matching with colour codes taken out.

use std::sync::Arc;

use smited_watch::config::Pattern;
use smited_watch::decode::decode_line;
use smited_watch::scan::{make_excerpt, Scanner, StreamId, EXCERPT_MAX, MAX_LINE};

fn pat(name: &str, regex: &str) -> Pattern {
    Pattern {
        name: name.into(),
        regex: regex.into(),
        sensation: format!("{name}_sensation"),
        backend_id: None,
        debounce_ms: 0,
        intensity_scale: None,
        priority: None,
        compiled: None,
    }
}

fn make_scanner(patterns: Vec<Pattern>) -> Scanner {
    match Scanner::new(Arc::new(patterns)) {
        Ok(s) => s,
        Err(e) => panic!("scanner should build from valid patterns: {}", e.message()),
    }
}

const OUT: StreamId = StreamId::Stdout;
const ERR: StreamId = StreamId::Stderr;

#[test]
fn single_line_single_pattern_matches() {
    let mut s = make_scanner(vec![pat("ts", r"error TS\d+")]);
    let events = s.feed(OUT, b"error TS1234\n");
    assert_eq!(events.len(), 1);
    assert_eq!(events[0].pattern_idx, 0);
    assert!(events[0].line_excerpt.contains("error TS1234"));
}

#[test]
fn single_line_multiple_patterns_all_fire() {
    let mut s = make_scanner(vec![
        pat("ts", r"error TS\d+"),
        pat("any_error", r"error"),
        pat("digits", r"\d+"),
    ]);
    let events = s.feed(OUT, b"error TS1234\n");
    let mut idxs: Vec<usize> = events.iter().map(|e| e.pattern_idx).collect();
    idxs.sort();
    assert_eq!(idxs, vec![0, 1, 2]);
}

#[test]
fn no_match_returns_empty() {
    let mut s = make_scanner(vec![pat("ts", r"error TS\d+")]);
    assert!(s.feed(OUT, b"nothing here\n").is_empty());
}

#[test]
fn ansi_escapes_are_stripped_before_matching() {
    let mut s = make_scanner(vec![pat("ts", r"error TS\d+")]);
    let events = s.feed(OUT, b"\x1b[31merror TS1234\x1b[0m\n");
    assert_eq!(events.len(), 1, "ANSI codes must not block the regex");
    assert_eq!(events[0].pattern_idx, 0);
}

#[test]
fn lines_split_across_feed_boundaries_reassemble() {
    let mut s = make_scanner(vec![pat("ts", r"error TS\d+")]);
    assert!(s.feed(OUT, b"err").is_empty());
    assert!(s.feed(OUT, b"or T").is_empty());
    let events = s.feed(OUT, b"S1234\n");
    assert_eq!(events.len(), 1);
    assert_eq!(events[0].pattern_idx, 0);
}

#[test]
fn multiple_lines_in_one_feed() {
    let mut s = make_scanner(vec![pat("ts", r"error TS\d+")]);
    let events = s.feed(OUT, b"error TS1\nokay\nerror TS2\n");
    assert_eq!(events.len(), 2);
    assert_eq!(events[0].pattern_idx, 0);
    assert_eq!(events[1].pattern_idx, 0);
}

#[test]
fn final_partial_line_emerges_on_flush() {
    let mut s = make_scanner(vec![pat("ts", r"error TS\d+")]);
    assert!(
        s.feed(OUT, b"error TS9").is_empty(),
        "no newline yet — buffered, no event"
    );
    let events = s.flush(OUT);
    assert_eq!(events.len(), 1, "flush must emit the trailing partial line");
    assert_eq!(events[0].pattern_idx, 0);
}

#[test]
fn empty_lines_are_scanned_but_dont_produce_matches() {
    let mut s = make_scanner(vec![pat("ts", r"error TS\d+")]);
    assert!(s.feed(OUT, b"\n\n\n").is_empty());
}

#[test]
fn force_flush_at_max_line_boundary() {
    let mut s = make_scanner(vec![pat("ts", r"error TS\d+")]);
    let mut chunk = vec![b'.'; MAX_LINE - 12];
    chunk.extend_from_slice(b"error TS9999");
    let events = s.feed(OUT, &chunk);
    assert_eq!(
        events.len(),
        1,
        "scanner must force-flush at MAX_LINE and emit the (possibly truncated) line"
    );
    assert_eq!(events[0].pattern_idx, 0);

    let more = vec![b'.'; 1024];
    assert!(
        s.feed(OUT, &more).is_empty(),
        "post-flush continuation should not re-match the already-emitted line"
    );
}

#[test]
fn carriage_return_alone_is_not_a_line_terminator() {
    let mut s = make_scanner(vec![pat("ts", r"error TS\d+")]);
    assert!(s.feed(OUT, b"\rerror TS1234").is_empty());
    let events = s.feed(OUT, b"\n");
    assert_eq!(events.len(), 1);
}

#[test]
fn invalid_pattern_regex_at_construction_errors_with_name() {
    let mut p = pat("broken", "(unclosed");
    p.regex = "(unclosed".into();
    let err = match Scanner::new(Arc::new(vec![p])) {
        Ok(_) => panic!("bad regex should error"),
        Err(e) => e,
    };
    let msg = err.message();
    assert!(
        msg.contains("broken"),
        "error should mention pattern name, got: {msg}"
    );
}

#[test]
fn a_line_just_under_the_limit_waits_for_its_end() {
    let mut s = make_scanner(vec![pat("ts", r"error TS\d+")]);
    let mut chunk = vec![b'.'; MAX_LINE - 13];
    chunk.extend_from_slice(b"error TS9999");
    assert!(s.feed(OUT, &chunk).is_empty());
    assert_eq!(s.feed(OUT, b"\n").len(), 1);
}

#[test]
fn streams_do_not_splice() {
    let mut s = make_scanner(vec![pat("ts", r"error TS\d+")]);
    assert!(s.feed(OUT, b"error ").is_empty());
    assert!(s.feed(ERR, b"TS1234\n").is_empty());
    let events = s.feed(OUT, b"TS5\n");
    assert_eq!(events.len(), 1);
    assert_eq!(events[0].stream, OUT);
    assert_eq!(events[0].line_excerpt, "error TS5");
}

#[test]
fn flushing_everything_takes_stdout_first() {
    let mut s = make_scanner(vec![pat("ts", r"TS\d+")]);
    assert!(s.feed(ERR, b"TS2").is_empty());
    assert!(s.feed(OUT, b"TS1").is_empty());
    let events = s.flush_all();
    let said: Vec<(StreamId, &str)> = events
        .iter()
        .map(|e| (e.stream, e.line_excerpt.as_str()))
        .collect();
    assert_eq!(said, vec![(OUT, "TS1"), (ERR, "TS2")]);
    assert!(s.flush_all().is_empty());
}

#[test]
fn the_end_of_a_line_is_not_part_of_it() {
    let mut s = make_scanner(vec![pat("end", r"^done$")]);
    assert_eq!(s.feed(OUT, b"done\r\n").len(), 1);
    assert_eq!(s.feed(OUT, b"done\n").len(), 1);
    assert!(s.feed(OUT, b"done.\n").is_empty());
}

#[test]
fn cutting_the_output_differently_changes_nothing() {
    let whole: &[u8] = b"error TS1\nplain\n\x1b[1merror\x1b[0m TS2\nerror TS3";
    let mut once = make_scanner(vec![pat("ts", r"error TS\d+"), pat("plain", "plain")]);
    let mut expected: Vec<(usize, String)> = Vec::new();
    for e in once.feed(OUT, whole).into_iter().chain(once.flush(OUT)) {
        expected.push((e.pattern_idx, e.line_excerpt));
    }
    assert_eq!(expected.len(), 4);
    for cut in 1..7 {
        let mut s = make_scanner(vec![pat("ts", r"error TS\d+"), pat("plain", "plain")]);
        let mut got: Vec<(usize, String)> = Vec::new();
        for piece in whole.chunks(cut) {
            for e in s.feed(OUT, piece) {
                got.push((e.pattern_idx, e.line_excerpt));
            }
        }
        for e in s.flush(OUT) {
            got.push((e.pattern_idx, e.line_excerpt));
        }
        assert_eq!(got, expected, "pieces of {cut}");
    }
}

#[test]
fn a_line_is_cut_at_the_limit_however_it_is_fed() {
    // The bytes up to the limit are one line, what follows begins another.
    let mut s = make_scanner(vec![pat("ts", r"^X+$")]);
    assert_eq!(s.feed(OUT, &vec![b'X'; MAX_LINE]).len(), 1);
    assert_eq!(s.feed(OUT, b"XX\n").len(), 1);
    // So it is in one piece.
    let mut s = make_scanner(vec![pat("ts", r"^X+$")]);
    let mut whole = vec![b'X'; MAX_LINE + 2];
    whole.push(b'\n');
    assert_eq!(s.feed(OUT, &whole).len(), 2);
    // And without an end: two full lines, and the rest waits.
    let mut s = make_scanner(vec![pat("ts", r"^X+$")]);
    assert_eq!(s.feed(OUT, &vec![b'X'; 2 * MAX_LINE + 1]).len(), 2);
    assert_eq!(s.flush(OUT).len(), 1);
    assert!(s.flush(OUT).is_empty());
}

#[test]
fn no_scanned_line_holds_both_ends_of_a_longer_one() {
    let mut s = make_scanner(vec![pat("both", r"^a.*b$")]);
    let mut bytes = vec![b'a'];
    bytes.extend(vec![b'.'; MAX_LINE]);
    bytes.extend_from_slice(b"b\n");
    assert!(s.feed(OUT, &bytes).is_empty());
    // One byte under the limit it is a line of its own.
    let mut bytes = vec![b'a'];
    bytes.extend(vec![b'.'; MAX_LINE - 3]);
    bytes.extend_from_slice(b"b\n");
    assert_eq!(s.feed(OUT, &bytes).len(), 1);
}

#[test]
fn a_full_line_brings_no_empty_one_with_it() {
    for end in ["\n", "\r\n"] {
        let mut s = make_scanner(vec![pat("empty", "^$"), pat("full", r"^X+$")]);
        let mut bytes = vec![b'X'; MAX_LINE];
        bytes.extend_from_slice(end.as_bytes());
        let found: Vec<usize> = s.feed(OUT, &bytes).iter().map(|e| e.pattern_idx).collect();
        assert_eq!(found, [1]);
        assert!(s.flush(OUT).is_empty());
        // One byte more is cut, and is a line behind the cut.
        let mut bytes = vec![b'X'; MAX_LINE + 1];
        bytes.extend_from_slice(end.as_bytes());
        let found: Vec<usize> = s.feed(OUT, &bytes).iter().map(|e| e.pattern_idx).collect();
        assert_eq!(found, [1, 1]);
    }
}

#[test]
fn an_end_that_comes_after_the_cut_ends_an_empty_line() {
    let mut s = make_scanner(vec![pat("empty", "^$"), pat("full", r"^X+$")]);
    let full = s.feed(OUT, &vec![b'X'; MAX_LINE]);
    assert_eq!(full.len(), 1);
    assert_eq!(full[0].pattern_idx, 1);
    let rest = s.feed(OUT, b"\n");
    assert_eq!(rest.len(), 1);
    assert_eq!(rest[0].pattern_idx, 0);
}

#[test]
fn lines_are_decoded_leniently() {
    assert_eq!(decode_line(b"plain"), "plain");
    assert_eq!(decode_line("gr\u{fc}n".as_bytes()), "gr\u{fc}n");
    assert_eq!(decode_line(b"a\xffb"), "a\u{fffd}b");
    assert_eq!(decode_line(b"\x1b[31mred\x1b[0m"), "red");
}

#[test]
fn a_long_excerpt_is_cut_at_a_character() {
    let short = "x".repeat(EXCERPT_MAX);
    assert_eq!(make_excerpt(&short), short);
    let long = "x".repeat(EXCERPT_MAX + 1);
    assert_eq!(make_excerpt(&long), format!("{short}…"));
    let mut odd = "x".repeat(EXCERPT_MAX - 1);
    let head = odd.clone();
    odd.push('\u{fc}');
    odd.push('y');
    assert_eq!(make_excerpt(&odd), format!("{head}…"));
}

#[test]
fn patterns_that_are_too_large_together_are_refused() {
    let patterns: Vec<Pattern> = (0..60).map(|i| pat(&format!("p{i}"), r"\pL{60}")).collect();
    assert!(Scanner::new(Arc::new(vec![pat("alone", r"\pL{60}")])).is_ok());
    let err = match Scanner::new(Arc::new(patterns)) {
        Ok(_) => panic!("too large to compile"),
        Err(e) => e.message(),
    };
    assert!(err.starts_with("build RegexSet: "), "got: {err}");
    assert!(err.contains("size limit"), "got: {err}");
}
