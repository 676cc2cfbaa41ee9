//! What holds of scanning as a whole.

use vstd::prelude::*;
use vstd::utf8::*;

use crate::config::Pattern;
use crate::error::ErrorView;
use crate::scan::{EventView, MatchEvent, StreamId, MAX_LINE};

verus! {

/// Where a line ends among the first bytes, or that it does not, is not changed by what follows.
proof fn lemma_line_end_of_front(a: Seq<u8>, b: Seq<u8>)
    ensures
        crate::scan::line_end(a) < a.len() ==> crate::scan::line_end(a + b)
            == crate::scan::line_end(a),
        crate::scan::line_end(a) == a.len() ==> crate::scan::line_end(a + b) >= a.len(),
{
    crate::scan::lemma_line_end_bound(a);
    crate::scan::lemma_line_end_bound(a + b);
    let end = crate::scan::line_end(a) as int;
    let joint = crate::scan::line_end(a + b) as int;
    if end < a.len() {
        assert forall|i: int| 0 <= i < end implies (a + b)[i] != 10 by {
            assert((a + b)[i] == a[i]);
        }
        crate::scan::lemma_line_end(a + b, end);
    } else if joint < a.len() {
        assert((a + b)[joint] == a[joint]);
    }
}

/// Whether `b` brings the end of a line that had to be cut at the end of `a` because its end had not
/// come: with `b` behind it the line would not be cut.
pub open spec fn splits_line_end(a: Seq<u8>, b: Seq<u8>) -> bool
    decreases a.len(),
{
    let end = crate::scan::line_end(a) as int;
    if crate::scan::is_cut(a) {
        !crate::scan::is_cut(a + b) || splits_line_end(a.skip(MAX_LINE as int), b)
    } else if end < a.len() {
        splits_line_end(a.skip(end + 1), b)
    } else {
        false
    }
}

/// Lines that are split over two feeds are put together again: feeding `a` and then `b` scans the
/// same lines and leaves the same bytes pending as feeding both at once. This holds unless the
/// feeds part a full line of [`MAX_LINE`] bytes from its end, which is then a line of its own.
pub proof fn law_feeds_join(pending: Seq<u8>, a: Seq<u8>, b: Seq<u8>)
    requires
        !splits_line_end(pending + a, b),
    ensures
        crate::scan::scanned_lines(pending + (a + b)) == crate::scan::scanned_lines(pending + a)
            + crate::scan::scanned_lines(crate::scan::kept(pending + a) + b),
        crate::scan::kept(pending + (a + b)) == crate::scan::kept(
            crate::scan::kept(pending + a) + b,
        ),
{
    assert(pending + (a + b) =~= (pending + a) + b);
    lemma_lines_of_concat(pending + a, b);
}

/// Behind the lines that are scanned of `a`, what is kept of it goes on with `b`.
proof fn lemma_lines_of_concat(a: Seq<u8>, b: Seq<u8>)
    requires
        !splits_line_end(a, b),
    ensures
        crate::scan::scanned_lines(a + b) == crate::scan::scanned_lines(a)
            + crate::scan::scanned_lines(crate::scan::kept(a) + b),
        crate::scan::kept(a + b) == crate::scan::kept(crate::scan::kept(a) + b),
    decreases a.len(),
{
    crate::scan::lemma_line_end_bound(a);
    lemma_line_end_of_front(a, b);
    let end = crate::scan::line_end(a) as int;
    let max = MAX_LINE as int;
    if crate::scan::is_cut(a) {
        lemma_lines_of_concat(a.skip(max), b);
        assert((a + b).take(max) =~= a.take(max));
        assert((a + b).skip(max) =~= a.skip(max) + b);
        assert(crate::scan::scanned_lines(a + b) =~= crate::scan::scanned_lines(a)
            + crate::scan::scanned_lines(crate::scan::kept(a) + b));
    } else if end < a.len() {
        lemma_lines_of_concat(a.skip(end + 1), b);
        assert((a + b).take(end) =~= a.take(end));
        assert((a + b).skip(end + 1) =~= a.skip(end + 1) + b);
        assert(crate::scan::scanned_lines(a + b) =~= crate::scan::scanned_lines(a)
            + crate::scan::scanned_lines(crate::scan::kept(a) + b));
    } else {
        assert(crate::scan::scanned_lines(a + b) =~= crate::scan::scanned_lines(a)
            + crate::scan::scanned_lines(a + b));
    }
}

/// The events of two feeds are those of one feed of all bytes, under the condition of
/// [`law_feeds_join`].
pub proof fn law_feeds_join_events(
    patterns: Seq<Seq<char>>,
    stream: StreamId,
    pending: Seq<u8>,
    a: Seq<u8>,
    b: Seq<u8>,
)
    requires
        !splits_line_end(pending + a, b),
    ensures
        crate::scan::lines_events(
            patterns,
            stream,
            crate::scan::scanned_lines(pending + (a + b)),
        ) == crate::scan::lines_events(
            patterns,
            stream,
            crate::scan::scanned_lines(pending + a),
        ) + crate::scan::lines_events(
            patterns,
            stream,
            crate::scan::scanned_lines(crate::scan::kept(pending + a) + b),
        ),
{
    law_feeds_join(pending, a, b);
    crate::scan::lemma_lines_events_concat(
        patterns,
        stream,
        crate::scan::scanned_lines(pending + a),
        crate::scan::scanned_lines(crate::scan::kept(pending + a) + b),
    );
}

/// Whether every [`MAX_LINE`] bytes of `b` in a row hold a `\n`.
pub open spec fn has_short_runs(b: Seq<u8>) -> bool {
    forall|i: int|
        0 <= i <= b.len() - MAX_LINE ==> (#[trigger] b.subrange(i, i + MAX_LINE)).contains(10)
}

/// Where no run of bytes without a `\n` is as long as [`MAX_LINE`], feeds join wherever they are
/// cut: feeding `a` and then `b` gives the same events and leaves the same bytes pending as feeding
/// both at once.
pub proof fn law_short_lines_join(
    patterns: Seq<Seq<char>>,
    stream: StreamId,
    pending: Seq<u8>,
    a: Seq<u8>,
    b: Seq<u8>,
)
    requires
        has_short_runs(pending + (a + b)),
    ensures
        crate::scan::lines_events(
            patterns,
            stream,
            crate::scan::scanned_lines(pending + (a + b)),
        ) == crate::scan::lines_events(
            patterns,
            stream,
            crate::scan::scanned_lines(pending + a),
        ) + crate::scan::lines_events(
            patterns,
            stream,
            crate::scan::scanned_lines(crate::scan::kept(pending + a) + b),
        ),
        crate::scan::kept(pending + (a + b)) == crate::scan::kept(
            crate::scan::kept(pending + a) + b,
        ),
{
    let front = pending + a;
    let whole = pending + (a + b);
    assert forall|i: int| 0 <= i <= front.len() - MAX_LINE implies (#[trigger] front.subrange(
        i,
        i + MAX_LINE,
    )).contains(10) by {
        assert(front.subrange(i, i + MAX_LINE) =~= whole.subrange(i, i + MAX_LINE));
    }
    lemma_short_runs_split_nothing(front, b);
    law_feeds_join(pending, a, b);
    law_feeds_join_events(patterns, stream, pending, a, b);
}

/// Where no run is as long as [`MAX_LINE`] nothing is cut, and no line parted from its end.
proof fn lemma_short_runs_split_nothing(a: Seq<u8>, b: Seq<u8>)
    requires
        has_short_runs(a),
    ensures
        !splits_line_end(a, b),
    decreases a.len(),
{
    crate::scan::lemma_line_end_bound(a);
    let end = crate::scan::line_end(a) as int;
    if crate::scan::is_cut(a) {
        let run = a.subrange(0, 0 + MAX_LINE);
        assert(run.contains(10));
        let k = choose|k: int| 0 <= k < run.len() && run[k] == 10;
        assert(a[k] == 10);
    } else if end < a.len() {
        let rest = a.skip(end + 1);
        assert forall|i: int| 0 <= i <= rest.len() - MAX_LINE implies (#[trigger] rest.subrange(
            i,
            i + MAX_LINE,
        )).contains(10) by {
            let at = i + end + 1;
            assert(rest.subrange(i, i + MAX_LINE) =~= a.subrange(at, at + MAX_LINE));
        }
        lemma_short_runs_split_nothing(rest, b);
    }
}

/// The lines of `b` that have an end, each without its line end, however long.
pub open spec fn ended_lines(b: Seq<u8>) -> Seq<Seq<u8>>
    decreases b.len(),
{
    let end = crate::scan::line_end(b) as int;
    if end < b.len() {
        seq![crate::scan::trimmed(b.take(end))] + ended_lines(b.skip(end + 1))
    } else {
        seq![]
    }
}

/// What stands behind the last `\n` of `b`.
pub open spec fn open_line(b: Seq<u8>) -> Seq<u8>
    decreases b.len(),
{
    let end = crate::scan::line_end(b) as int;
    if end < b.len() {
        open_line(b.skip(end + 1))
    } else {
        b
    }
}

/// Lines within the limit are scanned whole, and no other line comes with them: where no line
/// that has an end is longer than [`MAX_LINE`] bytes without it, exactly these lines are scanned,
/// and behind them what the line without an end gives. That is nothing where it is shorter than
/// the limit, and the line itself where it is as long.
pub proof fn law_lines_within_the_limit_are_whole(b: Seq<u8>)
    requires
        forall|i: int|
            0 <= i < ended_lines(b).len() ==> (#[trigger] ended_lines(b)[i]).len() <= MAX_LINE,
    ensures
        crate::scan::scanned_lines(b) == ended_lines(b) + crate::scan::scanned_lines(open_line(b)),
        crate::scan::kept(b) == crate::scan::kept(open_line(b)),
        open_line(b).len() < MAX_LINE ==> crate::scan::scanned_lines(open_line(b)).len() == 0
            && crate::scan::kept(b) == open_line(b),
        open_line(b).len() == MAX_LINE ==> crate::scan::scanned_lines(open_line(b)) == seq![
            open_line(b),
        ] && crate::scan::kept(b).len() == 0,
    decreases b.len(),
{
    crate::scan::lemma_line_end_bound(b);
    let end = crate::scan::line_end(b) as int;
    if end < b.len() {
        let rest = b.skip(end + 1);
        assert(ended_lines(b)[0].len() <= MAX_LINE);
        assert forall|i: int| 0 <= i < ended_lines(rest).len() implies (#[trigger] ended_lines(
            rest,
        )[i]).len() <= MAX_LINE by {
            assert(ended_lines(b)[i + 1] == ended_lines(rest)[i]);
        }
        law_lines_within_the_limit_are_whole(rest);
        assert(crate::scan::scanned_lines(b) =~= ended_lines(b) + crate::scan::scanned_lines(
            open_line(b),
        ));
    } else {
        assert(crate::scan::scanned_lines(b) =~= ended_lines(b) + crate::scan::scanned_lines(b));
        if b.len() == MAX_LINE {
            let rest = b.skip(MAX_LINE as int);
            assert(rest =~= Seq::empty());
            assert(crate::scan::line_end(rest) == 0);
            assert(crate::scan::scanned_lines(rest) =~= Seq::empty());
            assert(crate::scan::kept(rest) == rest);
            assert(crate::scan::is_cut(b));
            assert(b.take(MAX_LINE as int) =~= b);
            assert(crate::scan::scanned_lines(b) =~= seq![b]);
        }
    }
}

/// Whatever is fed, what stays pending is shorter than [`MAX_LINE`] and holds no `\n`.
pub proof fn law_buffer_is_bounded(b: Seq<u8>)
    ensures
        crate::scan::kept(b).len() < MAX_LINE,
        !crate::scan::kept(b).contains(10),
{
    crate::scan::lemma_kept_is_open(b);
    crate::scan::lemma_line_end_bound(crate::scan::kept(b));
}

/// Every line that is scanned has at most [`MAX_LINE`] bytes, whatever is fed and in whichever
/// pieces.
pub proof fn law_lines_are_capped(b: Seq<u8>)
    ensures
        forall|i: int|
            0 <= i < crate::scan::scanned_lines(b).len() ==> (#[trigger] crate::scan::scanned_lines(
                b,
            )[i]).len() <= MAX_LINE,
    decreases b.len(),
{
    crate::scan::lemma_line_end_bound(b);
    let end = crate::scan::line_end(b) as int;
    if crate::scan::is_cut(b) {
        law_lines_are_capped(b.skip(MAX_LINE as int));
        assert(crate::scan::scanned_lines(b).drop_first() =~= crate::scan::scanned_lines(
            b.skip(MAX_LINE as int),
        ));
    } else if end < b.len() {
        law_lines_are_capped(b.skip(end + 1));
        assert(crate::scan::scanned_lines(b).drop_first() =~= crate::scan::scanned_lines(
            b.skip(end + 1),
        ));
    }
    let lines = crate::scan::scanned_lines(b);
    assert forall|i: int| 0 <= i < lines.len() implies (#[trigger] lines[i]).len() <= MAX_LINE by {
        if i > 0 {
            assert(lines[i] == lines.drop_first()[i - 1]);
        }
    }
}

/// Only `\n` ends a line: of bytes without one, whatever `\r` they hold, only full [`MAX_LINE`]
/// bytes are scanned, and all of them wait where they are fewer.
pub proof fn law_only_newline_ends_a_line(b: Seq<u8>)
    requires
        !b.contains(10),
    ensures
        forall|i: int|
            0 <= i < crate::scan::scanned_lines(b).len() ==> (#[trigger] crate::scan::scanned_lines(
                b,
            )[i]).len() == MAX_LINE,
        b.len() < MAX_LINE ==> crate::scan::scanned_lines(b).len() == 0 && crate::scan::kept(b)
            == b,
    decreases b.len(),
{
    crate::scan::lemma_line_end_bound(b);
    let end = crate::scan::line_end(b) as int;
    if end < b.len() {
        assert(b.contains(b[end]));
    }
    if b.len() >= MAX_LINE {
        let rest = b.skip(MAX_LINE as int);
        assert forall|i: int| 0 <= i < rest.len() implies rest[i] != 10 by {
            assert(b.contains(b[i + MAX_LINE]));
        }
        law_only_newline_ends_a_line(rest);
        let lines = crate::scan::scanned_lines(b);
        assert(lines.drop_first() =~= crate::scan::scanned_lines(rest));
        assert forall|i: int| 0 <= i < lines.len() implies (#[trigger] lines[i]).len()
            == MAX_LINE by {
            if i > 0 {
                assert(lines[i] == lines.drop_first()[i - 1]);
            }
        }
    }
}

/// The bytes of the lines that are scanned of `b`, with their line ends.
pub open spec fn raw_lines(b: Seq<u8>) -> Seq<Seq<u8>>
    decreases b.len(),
{
    let end = crate::scan::line_end(b) as int;
    if crate::scan::is_cut(b) {
        seq![b.take(MAX_LINE as int)] + raw_lines(b.skip(MAX_LINE as int))
    } else if end < b.len() {
        seq![b.take(end + 1)] + raw_lines(b.skip(end + 1))
    } else {
        seq![]
    }
}

/// A line without its line end, where it has one.
pub open spec fn without_end(raw: Seq<u8>) -> Seq<u8> {
    if raw.len() > 0 && raw.last() == 10 {
        crate::scan::trimmed(raw.drop_last())
    } else {
        raw
    }
}

/// No byte is lost or repeated: the lines with their line ends, one after the other, and what is
/// kept behind them are all of `b`. Each line is scanned without its `\n` and without a `\r` in
/// front of that.
pub proof fn law_no_byte_is_lost(b: Seq<u8>)
    ensures
        raw_lines(b).flatten() + crate::scan::kept(b) == b,
        raw_lines(b).len() == crate::scan::scanned_lines(b).len(),
        forall|i: int|
            0 <= i < raw_lines(b).len() ==> crate::scan::scanned_lines(b)[i] == without_end(
                #[trigger] raw_lines(b)[i],
            ),
    decreases b.len(),
{
    crate::scan::lemma_line_end_bound(b);
    let end = crate::scan::line_end(b) as int;
    if crate::scan::is_cut(b) || end < b.len() {
        let n = if crate::scan::is_cut(b) {
            MAX_LINE as int
        } else {
            end + 1
        };
        let rest = b.skip(n);
        let line = b.take(n);
        law_no_byte_is_lost(rest);
        assert(raw_lines(b).drop_first() =~= raw_lines(rest));
        assert(raw_lines(b).flatten() == line + raw_lines(rest).flatten());
        assert(raw_lines(b).flatten() + crate::scan::kept(b) =~= line + (raw_lines(rest).flatten()
            + crate::scan::kept(rest)));
        assert(line + rest =~= b);
        assert(crate::scan::scanned_lines(b)[0] == without_end(line)) by {
            if n == end + 1 {
                assert(line.drop_last() =~= b.take(end));
            }
        }
        assert forall|i: int| 0 <= i < raw_lines(b).len() implies crate::scan::scanned_lines(b)[i]
            == without_end(#[trigger] raw_lines(b)[i]) by {
            if i > 0 {
                assert(raw_lines(b)[i] == raw_lines(rest)[i - 1]);
                assert(crate::scan::scanned_lines(b)[i] == crate::scan::scanned_lines(rest)[i - 1]);
            }
        }
    } else {
        assert(raw_lines(b) =~= seq![]);
        assert(raw_lines(b).flatten() + crate::scan::kept(b) =~= b);
    }
}

/// The indices that match are ascending, and each is one of the patterns'.
proof fn lemma_matching_ascends(patterns: Seq<Seq<char>>, text: Seq<char>, n: nat)
    requires
        n <= patterns.len() <= usize::MAX,
    ensures
        ({
            let found = Seq::new(n, |i: int| i as usize).filter(
                |i: usize| crate::regexes::regex_matches(patterns[i as int], text),
            );
            &&& forall|j: int, k: int| 0 <= j < k < found.len() ==> found[j] < found[k]
            &&& forall|j: int|
                0 <= j < found.len() ==> #[trigger] found[j] < n && crate::regexes::regex_matches(
                    patterns[found[j] as int],
                    text,
                )
            &&& forall|i: usize|
                i < n && #[trigger] crate::regexes::regex_matches(patterns[i as int], text)
                    ==> found.contains(i)
        }),
    decreases n,
{
    let pred = |i: usize| crate::regexes::regex_matches(patterns[i as int], text);
    let all = Seq::new(n, |i: int| i as usize);
    let found = all.filter(pred);
    reveal(Seq::filter);
    if n > 0 {
        let fewer = Seq::new((n - 1) as nat, |i: int| i as usize);
        assert(all.drop_last() =~= fewer);
        lemma_matching_ascends(patterns, text, (n - 1) as nat);
        let before = fewer.filter(pred);
        let last = (n - 1) as usize;
        assert(all.last() == last);
        assert(found == (if pred(last) {
            before.push(last)
        } else {
            before
        }));
        assert forall|i: usize|
            i < n && #[trigger] crate::regexes::regex_matches(
                patterns[i as int],
                text,
            ) implies found.contains(i) by {
            if i == last {
                assert(found[found.len() - 1] == i);
            } else {
                assert(before.contains(i));
                let k = choose|k: int| 0 <= k < before.len() && before[k] == i;
                assert(found[k] == i);
            }
        }
    } else {
        assert(found =~= seq![]);
    }
}

/// Patterns are independent: a line gives an event for a pattern exactly where that pattern
/// matches what is left of the line without its escape sequences, whatever the other patterns are,
/// whichever stream it came from and however long it is, and never two for the same one. The events
/// come in the patterns' order, and each carries the line's excerpt.
pub proof fn law_one_event_per_matching_pattern(
    patterns: Seq<Seq<char>>,
    stream: StreamId,
    line: Seq<u8>,
)
    requires
        patterns.len() <= usize::MAX,
    ensures
        ({
            let events = crate::scan::lines_events(patterns, stream, seq![line]);
            let text = crate::decode::lossy_text(crate::decode::ansi_stripped(line));
            &&& events == crate::scan::line_events(patterns, stream, line)
            &&& forall|i: usize|
                i < patterns.len() ==> (#[trigger] crate::regexes::regex_matches(
                    patterns[i as int],
                    text,
                ) <==> exists|k: int|
                    0 <= k < events.len() && #[trigger] events[k].pattern_idx == i)
            &&& forall|j: int, k: int|
                0 <= j < k < events.len() ==> events[j].pattern_idx < events[k].pattern_idx
            &&& forall|k: int|
                0 <= k < events.len() ==> {
                    &&& (#[trigger] events[k]).pattern_idx < patterns.len()
                    &&& events[k].stream == stream
                    &&& events[k].line_excerpt == crate::scan::excerpt(text)
                }
        }),
{
    let text = crate::decode::line_text(line);
    let found = crate::regexes::matching(patterns, text);
    let events = crate::scan::lines_events(patterns, stream, seq![line]);
    reveal_with_fuel(crate::scan::lines_events, 2);
    assert(events =~= crate::scan::line_events(patterns, stream, line));
    lemma_matching_ascends(patterns, text, patterns.len());
    assert(events.len() == found.len());
    assert forall|k: int| 0 <= k < events.len() implies (#[trigger] events[k]).pattern_idx
        == found[k] && events[k].stream == stream && events[k].line_excerpt
        == crate::scan::excerpt(text) by {}
    assert forall|i: usize| i < patterns.len() implies (#[trigger] crate::regexes::regex_matches(
        patterns[i as int],
        text,
    ) <==> exists|k: int| 0 <= k < events.len() && #[trigger] events[k].pattern_idx == i) by {
        if crate::regexes::regex_matches(patterns[i as int], text) {
            assert(found.contains(i));
            let k = choose|k: int| 0 <= k < found.len() && found[k] == i;
            assert(events[k].pattern_idx == i);
        }
    }
}

/// Every line that a feed completes is scanned, and on its own: wherever a line stands among those
/// of a feed, its events are those that it has alone, behind the events of the lines before it and
/// in front of those behind it. With [`law_one_event_per_matching_pattern`] this says of each
/// pattern and each line whether there is an event.
pub proof fn law_every_line_is_scanned(
    patterns: Seq<Seq<char>>,
    stream: StreamId,
    lines: Seq<Seq<u8>>,
    k: int,
)
    requires
        0 <= k < lines.len(),
    ensures
        crate::scan::lines_events(patterns, stream, lines) == crate::scan::lines_events(
            patterns,
            stream,
            lines.take(k),
        ) + crate::scan::lines_events(patterns, stream, seq![lines[k]]) + crate::scan::lines_events(
            patterns,
            stream,
            lines.skip(k + 1),
        ),
        crate::scan::lines_events(patterns, stream, Seq::empty()) == Seq::<EventView>::empty(),
{
    assert(lines =~= lines.take(k) + (seq![lines[k]] + lines.skip(k + 1)));
    crate::scan::lemma_lines_events_concat(
        patterns,
        stream,
        lines.take(k),
        seq![lines[k]] + lines.skip(k + 1),
    );
    crate::scan::lemma_lines_events_concat(patterns, stream, seq![lines[k]], lines.skip(k + 1));
    assert(crate::scan::lines_events(patterns, stream, lines) =~= crate::scan::lines_events(
        patterns,
        stream,
        lines.take(k),
    ) + crate::scan::lines_events(patterns, stream, seq![lines[k]]) + crate::scan::lines_events(
        patterns,
        stream,
        lines.skip(k + 1),
    ));
}

/// A flush scans what is pending as one line, and nothing where nothing is.
pub proof fn law_flush_scans_the_rest(
    patterns: Seq<Seq<char>>,
    stream: StreamId,
    pending: Seq<u8>,
)
    ensures
        pending.len() > 0 ==> crate::scan::flush_events(patterns, stream, pending)
            == crate::scan::lines_events(patterns, stream, seq![pending]),
        pending.len() == 0 ==> crate::scan::flush_events(patterns, stream, pending)
            == Seq::<EventView>::empty(),
{
    reveal_with_fuel(crate::scan::lines_events, 2);
    assert(crate::scan::lines_events(patterns, stream, seq![pending]) =~= crate::scan::line_events(
        patterns,
        stream,
        pending,
    ));
}

/// A line of up to 65536 bytes and its end, a `\n` with or without a `\r` in front, are scanned as
/// that line, and what follows as if it stood alone.
pub proof fn law_an_ended_line_is_scanned(text: Seq<u8>, end: Seq<u8>, rest: Seq<u8>)
    requires
        !text.contains(10),
        text.len() <= 65536,
        end == seq![13u8, 10u8] || (end == seq![10u8] && (text.len() == 0 || text.last() != 13)),
    ensures
        crate::scan::scanned_lines(text + end + rest) == seq![text] + crate::scan::scanned_lines(
            rest,
        ),
        crate::scan::kept(text + end + rest) == crate::scan::kept(rest),
{
    let b = text + end + rest;
    let n = text.len() + end.len() - 1;
    assert forall|i: int| 0 <= i < n implies b[i] != 10 by {
        if i < text.len() {
            assert(b[i] == text[i]);
            assert(text.contains(text[i]));
        }
    }
    crate::scan::lemma_line_end(b, n);
    assert(crate::scan::trimmed(b.take(n)) =~= text);
    assert(b.skip(n + 1) =~= rest);
}

/// A line that goes on behind its first 65536 bytes is cut there, and so is one that has no end
/// yet: these bytes are scanned as a line, and what follows as if it stood alone.
pub proof fn law_a_longer_line_is_cut(front: Seq<u8>, rest: Seq<u8>)
    requires
        !front.contains(10),
        front.len() == 65536,
        rest.len() > 0 ==> rest[0] != 10,
        rest.len() > 1 ==> !(rest[0] == 13 && rest[1] == 10),
    ensures
        crate::scan::scanned_lines(front + rest) == seq![front] + crate::scan::scanned_lines(rest),
        crate::scan::kept(front + rest) == crate::scan::kept(rest),
{
    let b = front + rest;
    crate::scan::lemma_line_end_bound(b);
    let end = crate::scan::line_end(b) as int;
    if end < 65536 {
        assert(b[end] == front[end]);
        assert(front.contains(front[end]));
    }
    assert(b.take(65536) =~= front);
    assert(b.skip(65536) =~= rest);
    if end < b.len() {
        assert(b[end] == rest[end - 65536]);
        if end == 65537 {
            assert(b.take(end).last() == rest[0]);
        }
    }
}

/// Fewer than 65536 bytes without a `\n` wait: nothing is scanned, and all of them are kept.
pub proof fn law_an_open_line_waits(b: Seq<u8>)
    requires
        !b.contains(10),
        b.len() < 65536,
    ensures
        crate::scan::scanned_lines(b) == Seq::<Seq<u8>>::empty(),
        crate::scan::kept(b) == b,
{
    crate::scan::lemma_line_end_bound(b);
    let end = crate::scan::line_end(b) as int;
    if end < b.len() {
        assert(b.contains(b[end]));
    }
}

/// The excerpt of a text is the text where its UTF-8 form has at most 512 bytes. Else it is the
/// longest front of whole characters that has, and an ellipsis.
pub proof fn law_excerpt_is_the_longest_front(text: Seq<char>)
    ensures
        encode_utf8(text).len() <= 512 ==> crate::scan::excerpt(text) == text,
        encode_utf8(text).len() > 512 ==> exists|n: int|
            {
                &&& 0 <= n < text.len()
                &&& crate::scan::excerpt(text) == (#[trigger] text.take(n)).push('\u{2026}')
                &&& encode_utf8(text.take(n)).len() <= 512
                &&& encode_utf8(text.take(n + 1)).len() > 512
            },
{
    if encode_utf8(text).len() > 512 {
        lemma_fitting_is_the_most(text, 512);
        let n = crate::scan::fitting(text, 512) as int;
        assert(crate::scan::excerpt(text) == text.take(n).push('\u{2026}'));
    }
}

/// As many characters as fit do, and one more does not.
proof fn lemma_fitting_is_the_most(s: Seq<char>, max: int)
    requires
        0 <= max < encode_utf8(s).len(),
    ensures
        crate::scan::fitting(s, max) < s.len(),
        encode_utf8(s.take(crate::scan::fitting(s, max) as int)).len() <= max,
        encode_utf8(s.take(crate::scan::fitting(s, max) as int + 1)).len() > max,
    decreases s.len(),
{
    let n = crate::scan::fitting(s, max) as int;
    let width = encode_scalar(s[0] as u32).len() as int;
    let rest = s.drop_first();
    if width > max {
        assert(s.take(0).len() == 0);
        assert(s.take(1).drop_first() =~= Seq::empty());
        assert(s.take(1)[0] == s[0]);
    } else {
        lemma_fitting_is_the_most(rest, max - width);
        assert(s.take(n).drop_first() =~= rest.take(n - 1));
        assert(s.take(n + 1).drop_first() =~= rest.take(n));
        assert(s.take(n)[0] == s[0]);
        assert(s.take(n + 1)[0] == s[0]);
    }
}

/// A scanner is refused exactly where a regex does not compile, or all of them do not together. The
/// error is that of the first regex that does not, with its pattern's name; only where each one
/// compiles it is that of the set.
pub proof fn law_the_first_bad_regex_is_reported(patterns: Seq<Pattern>, n: int)
    requires
        0 <= n <= patterns.len(),
        forall|i: int|
            0 <= i < n ==> crate::regexes::pattern_error((#[trigger] patterns[i]).regex@) is None,
    ensures
        n < patterns.len() ==> (crate::regexes::pattern_error(patterns[n].regex@) matches Some(
            reason,
        ) ==> crate::scan::scanner_fault(patterns) == Some(
            ErrorView::InvalidRegex { name: patterns[n].name@, regex: patterns[n].regex@, reason },
        )),
        n == patterns.len() ==> match crate::regexes::set_error(
            Seq::new(patterns.len(), |i: int| patterns[i].regex@),
        ) {
            Some(reason) => crate::scan::scanner_fault(patterns) == Some(
                ErrorView::RegexSet { reason },
            ),
            None => crate::scan::scanner_fault(patterns) is None,
        },
{
    crate::scan::lemma_first_bad_regex(patterns, n);
    if n < patterns.len() {
        assert(patterns.skip(n)[0] == patterns[n]);
    }
    assert(crate::scan::pattern_regexes(patterns) =~= Seq::new(
        patterns.len(),
        |i: int| patterns[i].regex@,
    ));
}

/// The views of regexes and events are those of their items, one by one, and an event's view is
/// what it carries.
pub proof fn law_scan_views_are_itemwise(
    patterns: Seq<Pattern>,
    strings: Seq<String>,
    events: Seq<MatchEvent>,
)
    ensures
        crate::scan::pattern_regexes(patterns).len() == patterns.len(),
        forall|i: int|
            0 <= i < patterns.len() ==> #[trigger] crate::scan::pattern_regexes(patterns)[i]
                == patterns[i].regex@,
        crate::regexes::views(strings).len() == strings.len(),
        forall|i: int|
            0 <= i < strings.len() ==> #[trigger] crate::regexes::views(strings)[i] == strings[i]@,
        crate::scan::event_views(events).len() == events.len(),
        forall|i: int|
            0 <= i < events.len() ==> {
                let view = #[trigger] crate::scan::event_views(events)[i];
                &&& view.pattern_idx == events[i].pattern_idx
                &&& view.stream == events[i].stream
                &&& view.line_excerpt == events[i].line_excerpt@
            },
{
}

/// What stays pending once `pieces` of one stream are fed one after the other.
pub open spec fn kept_after(pending: Seq<u8>, pieces: Seq<Seq<u8>>) -> Seq<u8>
    decreases pieces.len(),
{
    if pieces.len() == 0 {
        pending
    } else {
        crate::scan::kept(kept_after(pending, pieces.drop_last()) + pieces.last())
    }
}

/// The lines that are scanned while `pieces` of one stream are fed one after the other.
pub open spec fn scanned_over(pending: Seq<u8>, pieces: Seq<Seq<u8>>) -> Seq<Seq<u8>>
    decreases pieces.len(),
{
    if pieces.len() == 0 {
        Seq::empty()
    } else {
        scanned_over(pending, pieces.drop_last()) + crate::scan::scanned_lines(
            kept_after(pending, pieces.drop_last()) + pieces.last(),
        )
    }
}

/// However the output is cut into pieces, the same lines are scanned and the same bytes stay
/// pending: as if it had come in one. This holds unless a piece begins with the end of a full line
/// of [`MAX_LINE`] bytes, which the pieces before it have brought.
pub proof fn law_cutting_changes_nothing(pending: Seq<u8>, pieces: Seq<Seq<u8>>)
    requires
        pending.len() < MAX_LINE,
        crate::scan::line_end(pending) == pending.len(),
        forall|i: int|
            0 <= i < pieces.len() ==> !splits_line_end(
                pending + (#[trigger] pieces.take(i)).flatten_alt(),
                pieces[i],
            ),
    ensures
        scanned_over(pending, pieces) == crate::scan::scanned_lines(
            pending + pieces.flatten_alt(),
        ),
        kept_after(pending, pieces) == crate::scan::kept(pending + pieces.flatten_alt()),
    decreases pieces.len(),
{
    if pieces.len() == 0 {
        assert(pending + pieces.flatten_alt() =~= pending);
        assert(crate::scan::scanned_lines(pending) =~= Seq::empty());
    } else {
        let earlier = pieces.drop_last();
        assert forall|i: int| 0 <= i < earlier.len() implies !splits_line_end(
            pending + (#[trigger] earlier.take(i)).flatten_alt(),
            earlier[i],
        ) by {
            assert(earlier.take(i) =~= pieces.take(i));
        }
        law_cutting_changes_nothing(pending, earlier);
        assert(pieces.take(pieces.len() - 1) =~= earlier);
        law_feeds_join(pending, earlier.flatten_alt(), pieces.last());
    }
}

/// What is pending of both streams.
pub struct Buffers {
    pub stdout: Seq<u8>,
    pub stderr: Seq<u8>,
}

impl Buffers {
    /// What is pending of `stream`.
    pub open spec fn of(self, stream: StreamId) -> Seq<u8> {
        match stream {
            StreamId::Stdout => self.stdout,
            StreamId::Stderr => self.stderr,
        }
    }

    /// What is pending once `bytes` of `stream` are fed.
    #[verifier::opaque]
    pub open spec fn fed(self, stream: StreamId, bytes: Seq<u8>) -> Buffers {
        let left = crate::scan::kept(self.of(stream) + bytes);
        match stream {
            StreamId::Stdout => Buffers { stdout: left, ..self },
            StreamId::Stderr => Buffers { stderr: left, ..self },
        }
    }

    /// The events when `bytes` of `stream` are fed.
    #[verifier::opaque]
    pub open spec fn fed_events(
        self,
        patterns: Seq<Seq<char>>,
        stream: StreamId,
        bytes: Seq<u8>,
    ) -> Seq<EventView> {
        crate::scan::lines_events(
            patterns,
            stream,
            crate::scan::scanned_lines(self.of(stream) + bytes),
        )
    }

    /// What is pending once `chunks` are fed one after the other.
    pub open spec fn fed_all(self, chunks: Seq<(StreamId, Seq<u8>)>) -> Buffers
        decreases chunks.len(),
    {
        if chunks.len() == 0 {
            self
        } else {
            self.fed_all(chunks.drop_last()).fed(chunks.last().0, chunks.last().1)
        }
    }

    /// The events while `chunks` are fed one after the other.
    pub open spec fn events(
        self,
        patterns: Seq<Seq<char>>,
        chunks: Seq<(StreamId, Seq<u8>)>,
    ) -> Seq<EventView>
        decreases chunks.len(),
    {
        if chunks.len() == 0 {
            Seq::empty()
        } else {
            let (stream, bytes) = chunks.last();
            self.events(patterns, chunks.drop_last()) + self.fed_all(
                chunks.drop_last(),
            ).fed_events(patterns, stream, bytes)
        }
    }
}

/// The chunks of `stream`.
pub open spec fn chunks_of(chunks: Seq<(StreamId, Seq<u8>)>, stream: StreamId) -> Seq<
    (StreamId, Seq<u8>),
> {
    chunks.filter(|c: (StreamId, Seq<u8>)| c.0 == stream)
}

/// The events of `stream`.
pub open spec fn events_of(events: Seq<EventView>, stream: StreamId) -> Seq<EventView> {
    events.filter(|e: EventView| e.stream == stream)
}

/// Lines of a stream give events of that stream.
proof fn lemma_lines_events_stream(patterns: Seq<Seq<char>>, stream: StreamId, lines: Seq<Seq<u8>>)
    ensures
        forall|k: int|
            0 <= k < crate::scan::lines_events(patterns, stream, lines).len() ==> (
            #[trigger] crate::scan::lines_events(patterns, stream, lines)[k]).stream == stream,
    decreases lines.len(),
{
    if lines.len() > 0 {
        lemma_lines_events_stream(patterns, stream, lines.drop_first());
    }
}

/// Of events that are all of one stream, all are of that stream and none of the other.
proof fn lemma_events_of_one_stream(events: Seq<EventView>, from: StreamId, stream: StreamId)
    requires
        forall|k: int| 0 <= k < events.len() ==> (#[trigger] events[k]).stream == from,
    ensures
        events_of(events, stream) == (if from == stream {
            events
        } else {
            Seq::empty()
        }),
    decreases events.len(),
{
    reveal(Seq::filter);
    if events.len() > 0 {
        let earlier = events.drop_last();
        assert forall|k: int| 0 <= k < earlier.len() implies (#[trigger] earlier[k]).stream
            == from by {
            assert(earlier[k] == events[k]);
        }
        lemma_events_of_one_stream(earlier, from, stream);
        assert(events[events.len() - 1].stream == from);
        assert(events =~= earlier.push(events.last()));
    }
}

/// A feed goes by what is pending of its own stream, and changes and reports nothing of the other.
proof fn lemma_feed_is_of_its_stream(
    a: Buffers,
    b: Buffers,
    patterns: Seq<Seq<char>>,
    from: StreamId,
    bytes: Seq<u8>,
    stream: StreamId,
)
    requires
        a.of(stream) == b.of(stream),
    ensures
        from == stream ==> a.fed(from, bytes).of(stream) == b.fed(from, bytes).of(stream),
        from == stream ==> a.fed_events(patterns, from, bytes) == b.fed_events(
            patterns,
            from,
            bytes,
        ),
        from != stream ==> a.fed(from, bytes).of(stream) == a.of(stream),
        events_of(a.fed_events(patterns, from, bytes), stream) == (if from == stream {
            a.fed_events(patterns, from, bytes)
        } else {
            Seq::empty()
        }),
{
    reveal(Buffers::fed);
    reveal(Buffers::fed_events);
    let lines = crate::scan::scanned_lines(a.of(from) + bytes);
    lemma_lines_events_stream(patterns, from, lines);
    lemma_events_of_one_stream(a.fed_events(patterns, from, bytes), from, stream);
}

/// Of the chunks, the last one is of `stream` or is not.
proof fn lemma_chunks_of(chunks: Seq<(StreamId, Seq<u8>)>, stream: StreamId)
    ensures
        chunks.len() == 0 ==> chunks_of(chunks, stream) == chunks,
        chunks.len() > 0 ==> chunks_of(chunks, stream) == (if chunks.last().0 == stream {
            chunks_of(chunks.drop_last(), stream).push(chunks.last())
        } else {
            chunks_of(chunks.drop_last(), stream)
        }),
{
    reveal(Seq::filter);
    if chunks.len() == 0 {
        assert(chunks_of(chunks, stream) =~= chunks);
    }
}

/// The streams do not mix: what is pending of a stream, and its events, are as if the other
/// stream had said nothing. No line is ever put together from bytes of both.
pub proof fn law_streams_are_separate(
    buffers: Buffers,
    patterns: Seq<Seq<char>>,
    chunks: Seq<(StreamId, Seq<u8>)>,
    stream: StreamId,
)
    ensures
        buffers.fed_all(chunks).of(stream) == buffers.fed_all(chunks_of(chunks, stream)).of(stream),
        events_of(buffers.events(patterns, chunks), stream) == buffers.events(
            patterns,
            chunks_of(chunks, stream),
        ),
    decreases chunks.len(),
{
    lemma_chunks_of(chunks, stream);
    if chunks.len() > 0 {
        let earlier = chunks.drop_last();
        let (from, bytes) = chunks.last();
        let kept = chunks_of(earlier, stream);
        law_streams_are_separate(buffers, patterns, earlier, stream);
        lemma_feed_is_of_its_stream(
            buffers.fed_all(earlier),
            buffers.fed_all(kept),
            patterns,
            from,
            bytes,
            stream,
        );
        let before = buffers.events(patterns, earlier);
        let new = buffers.fed_all(earlier).fed_events(patterns, from, bytes);
        Seq::filter_distributes_over_add(before, new, |e: EventView| e.stream == stream);
        if from == stream {
            assert(kept.push(chunks.last()).drop_last() =~= kept);
        } else {
            assert(events_of(before, stream) + Seq::<EventView>::empty() =~= events_of(
                before,
                stream,
            ));
        }
    } else {
        lemma_events_of_one_stream(Seq::empty(), stream, stream);
    }
}

} // verus!
