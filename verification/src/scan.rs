//! The pattern scanner: output bytes in, matches out.
//!
//! Each stream has a line buffer of its own. A `\n` ends a line; a `\r` in front of it is not part
//! of the line, and a `\r` elsewhere ends nothing. No line is longer than [`MAX_LINE`] bytes: a longer
//! one is cut there, and so is one that has no end yet when so many bytes have come. The cut bytes
//! are scanned as a line, and the next byte begins another.

use std::sync::Arc;

use vstd::prelude::*;
use vstd::slice::*;
use vstd::string::*;
use vstd::utf8::*;

use crate::buffer::bytes_of;
use crate::config::Pattern;
use crate::decode::decode_line;
use crate::error::{ErrorView, WatchError};
use crate::regexes::{compile, compile_set, set_matches};

verus! {

/// The length at which a line is cut, as if it ended there.
pub const MAX_LINE: usize = 64 * 1024;

/// The length in bytes over which the text of a line is cut for the log.
pub const EXCERPT_MAX: usize = 512;

/// Which of the wrapped command's output streams bytes came from.
#[derive(Debug, Clone, Copy, PartialEq, Eq, Hash, Structural)]
pub enum StreamId {
    Stdout,
    Stderr,
}

/// One pattern matching one line.
#[derive(Debug, Clone)]
pub struct MatchEvent {
    /// Where the pattern stands among those that the [`Scanner`] was made with.
    pub pattern_idx: usize,
    /// Which stream the line came from.
    pub stream: StreamId,
    /// The text of the line, cut to [`EXCERPT_MAX`] bytes.
    pub line_excerpt: String,
}

/// A [`MatchEvent`] with its excerpt as a character sequence.
pub struct EventView {
    pub pattern_idx: usize,
    pub stream: StreamId,
    pub line_excerpt: Seq<char>,
}

impl View for MatchEvent {
    type V = EventView;

    open spec fn view(&self) -> EventView {
        EventView {
            pattern_idx: self.pattern_idx,
            stream: self.stream,
            line_excerpt: self.line_excerpt@,
        }
    }
}

/// The events as [`EventView`]s.
pub open spec fn event_views(events: Seq<MatchEvent>) -> Seq<EventView> {
    events.map_values(|e: MatchEvent| e@)
}

/// How many characters at the front of `s` fit into `max` bytes of UTF-8.
pub open spec fn fitting(s: Seq<char>, max: int) -> nat
    decreases s.len(),
{
    if s.len() == 0 {
        0
    } else {
        let width = encode_scalar(s[0] as u32).len();
        if width > max {
            0
        } else {
            1 + fitting(s.drop_first(), max - width)
        }
    }
}

/// The excerpt of a line's text: all of it where its UTF-8 form has at most [`EXCERPT_MAX`] bytes,
/// else as many whole characters as fit, and an ellipsis.
pub open spec fn excerpt(text: Seq<char>) -> Seq<char> {
    if encode_utf8(text).len() <= EXCERPT_MAX {
        text
    } else {
        text.take(fitting(text, EXCERPT_MAX as int) as int).push('\u{2026}')
    }
}

/// The last character boundary up to `max` stands behind the characters that fit.
proof fn lemma_last_boundary(s: Seq<char>, max: int, cut: int)
    requires
        0 <= cut <= max < encode_utf8(s).len(),
        is_char_boundary(encode_utf8(s), cut),
        forall|i: int| cut < i <= max ==> !#[trigger] is_char_boundary(encode_utf8(s), i),
    ensures
        fitting(s, max) <= s.len(),
        encode_utf8(s).subrange(0, cut) == encode_utf8(s.take(fitting(s, max) as int)),
    decreases s.len(),
{
    let bytes = encode_utf8(s);
    let width = encode_scalar(s[0] as u32).len() as int;
    let rest = s.drop_first();
    encode_utf8_valid_utf8(s);
    encode_utf8_valid_utf8(rest);
    encode_utf8_first_scalar(s);
    assert(pop_first_scalar(bytes) =~= encode_utf8(rest));
    assert(width > 0);
    if width > max {
        if cut > 0 {
            assert(!is_char_boundary(encode_utf8(rest), cut - width));
        }
        assert(bytes.subrange(0, 0) =~= encode_utf8(s.take(0)));
    } else {
        assert(is_char_boundary(encode_utf8(rest), 0));
        assert(is_char_boundary(bytes, width));
        assert(cut >= width);
        assert forall|i: int| cut - width < i <= max - width implies !#[trigger] is_char_boundary(
            encode_utf8(rest),
            i,
        ) by {
            assert(!is_char_boundary(bytes, i + width));
        }
        lemma_last_boundary(rest, max - width, cut - width);
        let n = fitting(rest, max - width) as int;
        let front = s.take(n + 1);
        assert(front.drop_first() =~= rest.take(n));
        assert(front[0] == s[0]);
        assert(bytes.subrange(0, cut) =~= encode_scalar(s[0] as u32) + encode_utf8(rest).subrange(
            0,
            cut - width,
        ));
    }
}

/// The excerpt of `line` for the log.
pub fn make_excerpt(line: &str) -> (r: String)
    ensures
        r@ == excerpt(line@),
{
    let bytes = line.as_bytes();
    let len: usize = bytes.len();
    if len <= EXCERPT_MAX {
        return line.to_owned();
    }
    let mut cut: usize = EXCERPT_MAX;
    proof {
        encode_utf8_valid_utf8(line@);
        is_char_boundary_start_end_of_seq(encode_utf8(line@));
    }
    while cut > 0 && !line.is_char_boundary(cut)
        invariant
            cut <= EXCERPT_MAX,
            forall|i: int|
                cut < i <= EXCERPT_MAX ==> !#[trigger] is_char_boundary(encode_utf8(line@), i),
        decreases cut,
    {
        cut -= 1;
    }
    let (front, _) = line.split_at(cut);
    proof {
        lemma_last_boundary(line@, EXCERPT_MAX as int, cut as int);
        let n = fitting(line@, EXCERPT_MAX as int) as int;
        encode_utf8_decode_utf8(front@);
        encode_utf8_decode_utf8(line@.take(n));
        assert(front@ == line@.take(n));
        reveal_strlit("\u{2026}");
    }
    let mut r = front.to_owned();
    r.append("\u{2026}");
    assert(r@ =~= excerpt(line@));
    r
}

/// Where the first `\n` of `b` stands; the length of `b` where there is none.
pub open spec fn line_end(b: Seq<u8>) -> nat
    decreases b.len(),
{
    if b.len() == 0 || b[0] == 10 {
        0
    } else {
        1 + line_end(b.drop_first())
    }
}

/// The line without a `\r` at its end.
pub open spec fn trimmed(line: Seq<u8>) -> Seq<u8> {
    if line.len() > 0 && line.last() == 13 {
        line.drop_last()
    } else {
        line
    }
}

/// Whether the first line of `b` is cut at [`MAX_LINE`] bytes: it has an end and is longer without
/// it, or it has none and is at least as long.
pub open spec fn is_cut(b: Seq<u8>) -> bool {
    let end = line_end(b) as int;
    b.len() >= MAX_LINE && (end < b.len() ==> trimmed(b.take(end)).len() > MAX_LINE)
}

/// The lines that are scanned of the buffered bytes `b`: those that have an end, each without its
/// line end, and [`MAX_LINE`] bytes at a time where one is cut.
pub open spec fn scanned_lines(b: Seq<u8>) -> Seq<Seq<u8>>
    decreases b.len(),
{
    let end = line_end(b) as int;
    if is_cut(b) {
        seq![b.take(MAX_LINE as int)] + scanned_lines(b.skip(MAX_LINE as int))
    } else if end < b.len() {
        seq![trimmed(b.take(end))] + scanned_lines(b.skip(end + 1))
    } else {
        seq![]
    }
}

/// What stays in the buffer of the bytes `b` once [`scanned_lines`] are gone: the line that has no
/// end yet.
pub open spec fn kept(b: Seq<u8>) -> Seq<u8>
    decreases b.len(),
{
    let end = line_end(b) as int;
    if is_cut(b) {
        kept(b.skip(MAX_LINE as int))
    } else if end < b.len() {
        kept(b.skip(end + 1))
    } else {
        b
    }
}

/// The events of one line: one for each pattern that matches its text, in the patterns' order.
pub open spec fn line_events(patterns: Seq<Seq<char>>, stream: StreamId, line: Seq<u8>) -> Seq<
    EventView,
> {
    let text = crate::decode::line_text(line);
    crate::regexes::matching(patterns, text).map_values(
        |i: usize| EventView { pattern_idx: i, stream, line_excerpt: excerpt(text) },
    )
}

/// The events of several lines, line by line.
pub open spec fn lines_events(
    patterns: Seq<Seq<char>>,
    stream: StreamId,
    lines: Seq<Seq<u8>>,
) -> Seq<EventView>
    decreases lines.len(),
{
    if lines.len() == 0 {
        seq![]
    } else {
        line_events(patterns, stream, lines[0]) + lines_events(
            patterns,
            stream,
            lines.drop_first(),
        )
    }
}

/// The events of two runs of lines are those of the one and then those of the other.
pub proof fn lemma_lines_events_concat(
    patterns: Seq<Seq<char>>,
    stream: StreamId,
    a: Seq<Seq<u8>>,
    b: Seq<Seq<u8>>,
)
    ensures
        lines_events(patterns, stream, a + b) == lines_events(patterns, stream, a) + lines_events(
            patterns,
            stream,
            b,
        ),
    decreases a.len(),
{
    if a.len() == 0 {
        assert(a + b =~= b);
    } else {
        lemma_lines_events_concat(patterns, stream, a.drop_first(), b);
        assert((a + b).drop_first() =~= a.drop_first() + b);
    }
    assert(lines_events(patterns, stream, a + b) =~= lines_events(patterns, stream, a)
        + lines_events(patterns, stream, b));
}

/// The first `\n` is the one with none in front of it.
pub proof fn lemma_line_end(b: Seq<u8>, n: int)
    requires
        0 <= n <= b.len(),
        forall|i: int| 0 <= i < n ==> b[i] != 10,
        n < b.len() ==> b[n] == 10,
    ensures
        line_end(b) == n,
    decreases b.len(),
{
    if n > 0 {
        lemma_line_end(b.drop_first(), n - 1);
    }
}

/// Whether the first line of `b` is cut; where it is not, where its `\n` stands, or the length of
/// `b` where there is none.
fn find_cut(b: &[u8]) -> (r: (bool, usize))
    ensures
        r.0 == is_cut(b@),
        !r.0 ==> r.1 == line_end(b@),
{
    // A line that is not cut has its end within the two bytes behind the limit.
    let limit: usize = MAX_LINE + 2;
    let mut i: usize = 0;
    while i < limit && i < b.len() && b[i] != 10
        invariant
            i <= limit,
            i <= b@.len(),
            limit == MAX_LINE + 2,
            forall|j: int| 0 <= j < i ==> b@[j] != 10,
        decreases b@.len() - i,
    {
        i += 1;
    }
    proof {
        lemma_line_end_bound(b@);
    }
    if i == limit {
        proof {
            let end = line_end(b@) as int;
            if end < limit && end < b@.len() {
                assert(b@[end] != 10);
            }
        }
        return (true, i);
    }
    proof {
        lemma_line_end(b@, i as int);
    }
    if i == b.len() {
        return (i >= MAX_LINE, i);
    }
    let text: usize = if i > 0 && b[i - 1] == 13 {
        i - 1
    } else {
        i
    };
    assert(text == trimmed(b@.take(i as int)).len());
    (text > MAX_LINE, i)
}

/// Scan one line and append its events.
fn scan_line(set: &regex::RegexSet, stream: StreamId, content: &[u8], out: &mut Vec<MatchEvent>)
    ensures
        event_views(final(out)@) == event_views(old(out)@) + line_events(
            crate::regexes::set_patterns(*set),
            stream,
            content@,
        ),
{
    let text = decode_line(content);
    let matches = set_matches(set, text.as_str());
    let ghost patterns = crate::regexes::set_patterns(*set);
    let ghost expected = line_events(patterns, stream, content@);
    assert(matches@ == crate::regexes::matching(patterns, text@));
    if matches.len() == 0 {
        assert(event_views(out@) =~= event_views(old(out)@) + expected);
        return;
    }
    let line_excerpt = make_excerpt(text.as_str());
    let mut i: usize = 0;
    while i < matches.len()
        invariant
            i <= matches@.len(),
            matches@ == crate::regexes::matching(patterns, text@),
            text@ == crate::decode::line_text(content@),
            line_excerpt@ == excerpt(text@),
            expected == line_events(patterns, stream, content@),
            event_views(out@) == event_views(old(out)@) + expected.take(i as int),
        decreases matches@.len() - i,
    {
        let event = MatchEvent {
            pattern_idx: matches[i],
            stream,
            line_excerpt: line_excerpt.clone(),
        };
        let ghost seen = event_views(out@);
        assert(event@ == expected[i as int]);
        out.push(event);
        assert(event_views(out@) =~= seen.push(event@));
        i += 1;
        assert(event_views(out@) =~= event_views(old(out)@) + expected.take(i as int));
    }
    assert(expected.take(matches@.len() as int) =~= expected);
}

/// Append `bytes` to the buffer, and scan and remove the lines that this completes.
fn drain(set: &regex::RegexSet, buf: &mut bytes::BytesMut, stream: StreamId, bytes: &[u8]) -> (r:
    Vec<MatchEvent>)
    requires
        crate::buffer::buffered(*old(buf)).len() + bytes@.len() <= isize::MAX,
    ensures
        crate::buffer::buffered(*final(buf)) == kept(crate::buffer::buffered(*old(buf)) + bytes@),
        event_views(r@) == lines_events(
            crate::regexes::set_patterns(*set),
            stream,
            scanned_lines(crate::buffer::buffered(*old(buf)) + bytes@),
        ),
{
    let mut events: Vec<MatchEvent> = Vec::new();
    buf.extend_from_slice(bytes);
    let ghost all = crate::buffer::buffered(*buf);
    let ghost patterns = crate::regexes::set_patterns(*set);
    let mut first: (bool, usize) = find_cut(bytes_of(buf));
    assert(event_views(events@) =~= seq![]);
    while first.0 || first.1 < bytes_of(buf).len()
        invariant
            first.0 == is_cut(crate::buffer::buffered(*buf)),
            !first.0 ==> first.1 == line_end(crate::buffer::buffered(*buf)),
            patterns == crate::regexes::set_patterns(*set),
            event_views(events@) + lines_events(
                patterns,
                stream,
                scanned_lines(crate::buffer::buffered(*buf)),
            ) == lines_events(patterns, stream, scanned_lines(all)),
            kept(crate::buffer::buffered(*buf)) == kept(all),
        decreases crate::buffer::buffered(*buf).len(),
    {
        let ghost now = crate::buffer::buffered(*buf);
        let ghost before = event_views(events@);
        let (cut, end): (bool, usize) = first;
        if cut {
            let line = buf.split_to(MAX_LINE);
            scan_line(set, stream, bytes_of(&line), &mut events);
        } else {
            let line = buf.split_to(end + 1);
            let full = bytes_of(&line);
            let mut len: usize = end;
            if len > 0 && full[len - 1] == 13 {
                len -= 1;
            }
            let content = slice_subrange(full, 0, len);
            assert(content@ =~= trimmed(now.take(end as int)));
            scan_line(set, stream, content, &mut events);
        }
        proof {
            let rest = scanned_lines(crate::buffer::buffered(*buf));
            assert(scanned_lines(now).drop_first() =~= rest);
            assert(event_views(events@) + lines_events(patterns, stream, rest) =~= before
                + lines_events(patterns, stream, scanned_lines(now)));
        }
        first = find_cut(bytes_of(buf));
    }
    assert(event_views(events@) =~= lines_events(patterns, stream, scanned_lines(all)));
    events
}

/// The patterns' regexes.
pub open spec fn pattern_regexes(patterns: Seq<Pattern>) -> Seq<Seq<char>> {
    patterns.map_values(|p: Pattern| p.regex@)
}

/// What is wrong with the first pattern whose regex does not compile.
pub open spec fn first_bad_regex(patterns: Seq<Pattern>) -> Option<ErrorView>
    decreases patterns.len(),
{
    if patterns.len() == 0 {
        None
    } else {
        match crate::regexes::pattern_error(patterns[0].regex@) {
            Some(reason) => Some(
                ErrorView::InvalidRegex {
                    name: patterns[0].name@,
                    regex: patterns[0].regex@,
                    reason,
                },
            ),
            None => first_bad_regex(patterns.drop_first()),
        }
    }
}

/// Why there is no scanner for `patterns`, if there is none: the first regex that does not
/// compile, else that they do not compile together.
pub open spec fn scanner_fault(patterns: Seq<Pattern>) -> Option<ErrorView> {
    match first_bad_regex(patterns) {
        Some(e) => Some(e),
        None => match crate::regexes::set_error(pattern_regexes(patterns)) {
            Some(reason) => Some(ErrorView::RegexSet { reason }),
            None => None,
        },
    }
}

/// The first bad regex lies behind a prefix of good ones.
pub proof fn lemma_first_bad_regex(patterns: Seq<Pattern>, n: int)
    requires
        0 <= n <= patterns.len(),
        forall|i: int|
            0 <= i < n ==> crate::regexes::pattern_error((#[trigger] patterns[i]).regex@) is None,
    ensures
        first_bad_regex(patterns) == first_bad_regex(patterns.skip(n)),
    decreases n,
{
    if n > 0 {
        lemma_first_bad_regex(patterns.drop_first(), n - 1);
        assert(patterns.drop_first().skip(n - 1) =~= patterns.skip(n));
        assert(crate::regexes::pattern_error(patterns[0].regex@) is None);
    } else {
        assert(patterns.skip(0) =~= patterns);
    }
}

/// Looks for a list of patterns in the lines of two streams.
pub struct Scanner {
    set: regex::RegexSet,
    stdout: bytes::BytesMut,
    stderr: bytes::BytesMut,
}

impl Scanner {
    /// The regexes that are looked for.
    pub closed spec fn regexes(&self) -> Seq<Seq<char>> {
        crate::regexes::set_patterns(self.set)
    }

    /// The bytes of `stream` that belong to a line without an end.
    pub closed spec fn pending(&self, stream: StreamId) -> Seq<u8> {
        match stream {
            StreamId::Stdout => crate::buffer::buffered(self.stdout),
            StreamId::Stderr => crate::buffer::buffered(self.stderr),
        }
    }

    /// What holds between calls: what is pending holds no line end and is shorter than
    /// [`MAX_LINE`].
    pub open spec fn wf(&self) -> bool {
        forall|stream: StreamId|
            {
                &&& (#[trigger] self.pending(stream)).len() < MAX_LINE
                &&& line_end(self.pending(stream)) == self.pending(stream).len()
            }
    }

    /// A scanner for `patterns`, with nothing pending.
    ///
    /// Each regex is compiled on its own first, so that an error names the pattern that has it.
    pub fn new(patterns: Arc<Vec<Pattern>>) -> (r: Result<Scanner, WatchError>)
        ensures
            match r {
                Ok(s) => {
                    &&& scanner_fault(patterns@) is None
                    &&& s.wf()
                    &&& s.regexes() == pattern_regexes(patterns@)
                    &&& s.pending(StreamId::Stdout) == Seq::<u8>::empty()
                    &&& s.pending(StreamId::Stderr) == Seq::<u8>::empty()
                },
                Err(e) => scanner_fault(patterns@) == Some(e@),
            },
    {
        let mut regexes: Vec<String> = Vec::new();
        let mut i: usize = 0;
        while i < patterns.len()
            invariant
                i <= patterns@.len(),
                regexes@.len() == i,
                forall|j: int| 0 <= j < i ==> (#[trigger] regexes@[j])@ == patterns@[j].regex@,
                forall|j: int|
                    0 <= j < i ==> crate::regexes::pattern_error(
                        (#[trigger] patterns@[j]).regex@,
                    ) is None,
            decreases patterns@.len() - i,
        {
            let p: &Pattern = &patterns[i];
            match compile(p.regex.as_str()) {
                Ok(_) => {},
                Err(reason) => {
                    proof {
                        lemma_first_bad_regex(patterns@, i as int);
                        assert(patterns@.skip(i as int)[0] == patterns@[i as int]);
                    }
                    return Err(
                        WatchError::InvalidRegex {
                            name: p.name.clone(),
                            regex: p.regex.clone(),
                            reason,
                        },
                    );
                },
            }
            regexes.push(p.regex.clone());
            i += 1;
        }
        proof {
            lemma_first_bad_regex(patterns@, patterns@.len() as int);
            assert(crate::regexes::views(regexes@) =~= pattern_regexes(patterns@));
        }
        match compile_set(&regexes) {
            Ok(set) => {
                let s = Scanner {
                    set,
                    stdout: bytes::BytesMut::new(),
                    stderr: bytes::BytesMut::new(),
                };
                Ok(s)
            },
            Err(reason) => Err(WatchError::RegexSet { reason }),
        }
    }

    /// Take in bytes of one stream and return the events of the lines that they complete.
    ///
    /// Bytes of the other stream stay where they are. The lines are those of [`scanned_lines`],
    /// what stays pending is [`kept`].
    pub fn feed(&mut self, stream: StreamId, bytes: &[u8]) -> (r: Vec<MatchEvent>)
        requires
            old(self).wf(),
            old(self).pending(stream).len() + bytes@.len() <= isize::MAX,
        ensures
            final(self).wf(),
            final(self).regexes() == old(self).regexes(),
            final(self).pending(stream) == kept(old(self).pending(stream) + bytes@),
            forall|other: StreamId|
                other != stream ==> #[trigger] final(self).pending(other) == old(self).pending(
                    other,
                ),
            event_views(r@) == lines_events(
                old(self).regexes(),
                stream,
                scanned_lines(old(self).pending(stream) + bytes@),
            ),
    {
        proof {
            lemma_kept_is_open(old(self).pending(stream) + bytes@);
            assert(old(self).pending(StreamId::Stdout).len() < MAX_LINE);
            assert(old(self).pending(StreamId::Stderr).len() < MAX_LINE);
        }
        match stream {
            StreamId::Stdout => drain(&self.set, &mut self.stdout, stream, bytes),
            StreamId::Stderr => drain(&self.set, &mut self.stderr, stream, bytes),
        }
    }

    /// Take what is pending of one stream as a line, and return its events.
    pub fn flush(&mut self, stream: StreamId) -> (r: Vec<MatchEvent>)
        requires
            old(self).wf(),
        ensures
            final(self).wf(),
            final(self).regexes() == old(self).regexes(),
            final(self).pending(stream) == Seq::<u8>::empty(),
            forall|other: StreamId|
                other != stream ==> #[trigger] final(self).pending(other) == old(self).pending(
                    other,
                ),
            event_views(r@) == flush_events(old(self).regexes(), stream, old(self).pending(stream)),
    {
        proof {
            assert(old(self).pending(StreamId::Stdout).len() < MAX_LINE);
            assert(old(self).pending(StreamId::Stderr).len() < MAX_LINE);
        }
        match stream {
            StreamId::Stdout => drain_rest(&self.set, &mut self.stdout, stream),
            StreamId::Stderr => drain_rest(&self.set, &mut self.stderr, stream),
        }
    }

    /// Take what is pending of both streams as lines, and return their events.
    pub fn flush_all(&mut self) -> (r: Vec<MatchEvent>)
        requires
            old(self).wf(),
        ensures
            final(self).wf(),
            final(self).regexes() == old(self).regexes(),
            final(self).pending(StreamId::Stdout) == Seq::<u8>::empty(),
            final(self).pending(StreamId::Stderr) == Seq::<u8>::empty(),
            event_views(r@) == flush_events(
                old(self).regexes(),
                StreamId::Stdout,
                old(self).pending(StreamId::Stdout),
            ) + flush_events(
                old(self).regexes(),
                StreamId::Stderr,
                old(self).pending(StreamId::Stderr),
            ),
    {
        let mut events = self.flush(StreamId::Stdout);
        let ghost first = events@;
        let mut rest = self.flush(StreamId::Stderr);
        let ghost second = rest@;
        events.append(&mut rest);
        assert(event_views(events@) =~= event_views(first) + event_views(second));
        events
    }
}

/// The events of a flush: those of what is pending, as one line, where anything is.
pub open spec fn flush_events(
    patterns: Seq<Seq<char>>,
    stream: StreamId,
    pending: Seq<u8>,
) -> Seq<EventView> {
    if pending.len() == 0 {
        seq![]
    } else {
        line_events(patterns, stream, pending)
    }
}

/// Empty the buffer, and scan what it held as one line.
fn drain_rest(set: &regex::RegexSet, buf: &mut bytes::BytesMut, stream: StreamId) -> (r: Vec<
    MatchEvent,
>)
    ensures
        crate::buffer::buffered(*final(buf)) == Seq::<u8>::empty(),
        event_views(r@) == flush_events(
            crate::regexes::set_patterns(*set),
            stream,
            crate::buffer::buffered(*old(buf)),
        ),
{
    let mut events: Vec<MatchEvent> = Vec::new();
    let len: usize = bytes_of(buf).len();
    if len == 0 {
        assert(crate::buffer::buffered(*buf) =~= seq![]);
        assert(event_views(events@) =~= seq![]);
        return events;
    }
    let drained = buf.split_to(len);
    assert(crate::buffer::buffered(drained) =~= crate::buffer::buffered(*old(buf)));
    assert(crate::buffer::buffered(*buf) =~= seq![]);
    scan_line(set, stream, bytes_of(&drained), &mut events);
    assert(event_views(events@) =~= line_events(
        crate::regexes::set_patterns(*set),
        stream,
        crate::buffer::buffered(drained),
    ));
    events
}

/// What stays in the buffer holds no line end and is shorter than [`MAX_LINE`].
pub proof fn lemma_kept_is_open(b: Seq<u8>)
    ensures
        kept(b).len() < MAX_LINE,
        line_end(kept(b)) == kept(b).len(),
    decreases b.len(),
{
    lemma_line_end_bound(b);
    let end = line_end(b) as int;
    if is_cut(b) {
        lemma_kept_is_open(b.skip(MAX_LINE as int));
    } else if end < b.len() {
        lemma_kept_is_open(b.skip(end + 1));
    }
}

/// The first line end lies inside of the bytes, or at their end where there is none.
pub proof fn lemma_line_end_bound(b: Seq<u8>)
    ensures
        line_end(b) <= b.len(),
        line_end(b) < b.len() ==> b[line_end(b) as int] == 10,
        forall|i: int| 0 <= i < line_end(b) ==> b[i] != 10,
    decreases b.len(),
{
    if b.len() > 0 && b[0] != 10 {
        lemma_line_end_bound(b.drop_first());
        assert forall|i: int| 0 <= i < line_end(b) implies b[i] != 10 by {
            if i > 0 {
                assert(b.drop_first()[i - 1] == b[i]);
            }
        }
    }
}

} // verus!
