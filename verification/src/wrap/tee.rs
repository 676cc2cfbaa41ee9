//! Copying one output stream: first to the parent's stream, byte for byte, then to the scanner.
//!
//! The parent comes first, so that a slow terminal slows the command down as it would without the
//! copy. The scanner comes second and may be too slow: then a chunk is not scanned, and counted.

use vstd::prelude::*;

use crate::scan::StreamId;

verus! {

/// How many chunks may wait between the reader, the copy and the scanner.
pub const CHANNEL_CAPACITY: usize = 1024;

/// How many bytes are read at once.
pub const READ_BUF: usize = 8 * 1024;

/// Which of the parent's streams a copy goes to.
#[derive(Debug, Clone, Copy, PartialEq, Eq, Structural)]
pub enum SinkKind {
    Stdout,
    Stderr,
}

impl vstd::std_specs::convert::FromSpecImpl<SinkKind> for StreamId {
    open spec fn obeys_from_spec() -> bool {
        true
    }

    open spec fn from_spec(sink: SinkKind) -> StreamId {
        match sink {
            SinkKind::Stdout => StreamId::Stdout,
            SinkKind::Stderr => StreamId::Stderr,
        }
    }
}

impl From<SinkKind> for StreamId {
    fn from(sink: SinkKind) -> (r: StreamId) {
        match sink {
            SinkKind::Stdout => StreamId::Stdout,
            SinkKind::Stderr => StreamId::Stderr,
        }
    }
}

/// How a write or a flush of the parent's stream went.
#[derive(Debug, Clone, Copy, PartialEq, Eq, Structural)]
pub enum IoOutcome {
    Done,
    /// Whoever read the parent's stream is gone.
    BrokenPipe,
    Failed,
}

/// What happened to a copy.
#[derive(Debug, Clone)]
pub enum TeeEvent {
    /// Bytes were read; none, at the end of the stream.
    Read(Vec<u8>),
    /// The stream cannot be read any more.
    ReadFailed,
    /// The chunk was written to the parent's stream, or not.
    Written(IoOutcome),
    /// The parent's stream was flushed, or not.
    Flushed(IoOutcome),
    /// The scanner has taken the chunk, or had no room for it.
    Offered(bool),
}

/// What to do next for a copy.
#[derive(Debug, Clone)]
pub enum TeeAction {
    /// Read the stream.
    Read,
    /// Write the chunk to the parent's stream, all of it.
    Write,
    /// Flush the parent's stream.
    Flush,
    /// Offer these bytes to the scanner, without waiting for room.
    Offer(StreamId, Vec<u8>),
    /// Say that the parent's stream is broken, and stop.
    NotifyBroken,
    /// Stop.
    Stop,
    /// Go on waiting: this did not concern the copy.
    Ignore,
}

/// What a copy waits for.
#[derive(Debug, Clone, Copy, PartialEq, Eq, Structural)]
pub enum TeePhase {
    Reading,
    Writing,
    Flushing,
    Offering,
    Halted,
}

/// The state of a copy.
#[derive(Debug)]
pub struct Tee {
    sink: SinkKind,
    phase: TeePhase,
    chunk: Vec<u8>,
    drops: u64,
}

/// A [`Tee`] with its chunk as a sequence.
pub struct TeeState {
    pub stream: StreamId,
    pub phase: TeePhase,
    pub chunk: Seq<u8>,
    pub drops: u64,
}

/// A [`TeeEvent`] with its bytes as a sequence.
pub enum TeeEventView {
    Read(Seq<u8>),
    ReadFailed,
    Written(IoOutcome),
    Flushed(IoOutcome),
    Offered(bool),
}

/// A [`TeeAction`] with its bytes as a sequence, and with the chunk that is written.
pub enum TeeActionView {
    Read,
    Write(Seq<u8>),
    Flush,
    Offer(StreamId, Seq<u8>),
    NotifyBroken,
    Stop,
    Ignore,
}

/// The stream whose copy goes to `sink`.
pub open spec fn stream_of(sink: SinkKind) -> StreamId {
    match sink {
        SinkKind::Stdout => StreamId::Stdout,
        SinkKind::Stderr => StreamId::Stderr,
    }
}

impl View for Tee {
    type V = TeeState;

    closed spec fn view(&self) -> TeeState {
        TeeState {
            stream: stream_of(self.sink),
            phase: self.phase,
            chunk: self.chunk@,
            drops: self.drops,
        }
    }
}

impl View for TeeEvent {
    type V = TeeEventView;

    open spec fn view(&self) -> TeeEventView {
        match *self {
            TeeEvent::Read(bytes) => TeeEventView::Read(bytes@),
            TeeEvent::ReadFailed => TeeEventView::ReadFailed,
            TeeEvent::Written(outcome) => TeeEventView::Written(outcome),
            TeeEvent::Flushed(outcome) => TeeEventView::Flushed(outcome),
            TeeEvent::Offered(taken) => TeeEventView::Offered(taken),
        }
    }
}

impl TeeAction {
    /// The action, for a copy whose chunk is `chunk`.
    pub open spec fn on(&self, chunk: Seq<u8>) -> TeeActionView {
        match *self {
            TeeAction::Read => TeeActionView::Read,
            TeeAction::Write => TeeActionView::Write(chunk),
            TeeAction::Flush => TeeActionView::Flush,
            TeeAction::Offer(stream, bytes) => TeeActionView::Offer(stream, bytes@),
            TeeAction::NotifyBroken => TeeActionView::NotifyBroken,
            TeeAction::Stop => TeeActionView::Stop,
            TeeAction::Ignore => TeeActionView::Ignore,
        }
    }
}

impl TeeState {
    /// A copy that has not read anything.
    pub open spec fn fresh(stream: StreamId) -> TeeState {
        TeeState { stream, phase: TeePhase::Reading, chunk: Seq::empty(), drops: 0 }
    }

    /// The state once `event` has happened, and what to do next.
    pub open spec fn step(self, event: TeeEventView) -> (TeeState, TeeActionView) {
        let reading = TeeState { phase: TeePhase::Reading, chunk: Seq::empty(), ..self };
        let halted = TeeState { phase: TeePhase::Halted, chunk: Seq::empty(), ..self };
        match (self.phase, event) {
            (TeePhase::Reading, TeeEventView::Read(bytes)) => if bytes.len() == 0 {
                (halted, TeeActionView::Stop)
            } else {
                (
                    TeeState { phase: TeePhase::Writing, chunk: bytes, ..self },
                    TeeActionView::Write(bytes),
                )
            },
            (TeePhase::Reading, TeeEventView::ReadFailed) => (halted, TeeActionView::Stop),
            (TeePhase::Writing, TeeEventView::Written(IoOutcome::Done)) => (
                TeeState { phase: TeePhase::Flushing, ..self },
                TeeActionView::Flush,
            ),
            (TeePhase::Writing, TeeEventView::Written(IoOutcome::BrokenPipe)) => (
                halted,
                TeeActionView::NotifyBroken,
            ),
            (TeePhase::Writing, TeeEventView::Written(IoOutcome::Failed)) => (
                reading,
                TeeActionView::Read,
            ),
            (TeePhase::Flushing, TeeEventView::Flushed(IoOutcome::BrokenPipe)) => (
                halted,
                TeeActionView::NotifyBroken,
            ),
            (TeePhase::Flushing, TeeEventView::Flushed(_)) => (
                TeeState { phase: TeePhase::Offering, chunk: Seq::empty(), ..self },
                TeeActionView::Offer(self.stream, self.chunk),
            ),
            (TeePhase::Offering, TeeEventView::Offered(true)) => (reading, TeeActionView::Read),
            (TeePhase::Offering, TeeEventView::Offered(false)) => (
                TeeState {
                    drops: if self.drops == u64::MAX {
                        0
                    } else {
                        (self.drops + 1) as u64
                    },
                    ..reading
                },
                TeeActionView::Read,
            ),
            _ => (self, TeeActionView::Ignore),
        }
    }
}

impl Tee {
    /// A copy to `sink` that has not read anything.
    pub fn new(sink: SinkKind) -> (r: Tee)
        ensures
            r@ == TeeState::fresh(stream_of(sink)),
    {
        let r = Tee { sink, phase: TeePhase::Reading, chunk: Vec::new(), drops: 0 };
        assert(r@.chunk =~= Seq::empty());
        r
    }

    /// The chunk to write.
    pub fn chunk(&self) -> (r: &Vec<u8>)
        ensures
            r@ == self@.chunk,
    {
        &self.chunk
    }

    /// How many chunks the scanner had no room for.
    pub fn drops(&self) -> (r: u64)
        ensures
            r == self@.drops,
    {
        self.drops
    }

    /// Take note of what happened, and say what to do next.
    pub fn step(&mut self, event: TeeEvent) -> (r: TeeAction)
        ensures
            (final(self)@, r.on(final(self)@.chunk)) == old(self)@.step(event@),
    {
        match (self.phase, event) {
            (TeePhase::Reading, TeeEvent::Read(bytes)) => {
                if bytes.len() == 0 {
                    self.halt();
                    TeeAction::Stop
                } else {
                    self.phase = TeePhase::Writing;
                    self.chunk = bytes;
                    TeeAction::Write
                }
            },
            (TeePhase::Reading, TeeEvent::ReadFailed) => {
                self.halt();
                TeeAction::Stop
            },
            (TeePhase::Writing, TeeEvent::Written(outcome)) => match outcome {
                IoOutcome::Done => {
                    self.phase = TeePhase::Flushing;
                    TeeAction::Flush
                },
                IoOutcome::BrokenPipe => {
                    self.halt();
                    TeeAction::NotifyBroken
                },
                IoOutcome::Failed => {
                    self.phase = TeePhase::Reading;
                    self.chunk = Vec::new();
                    assert(self.chunk@ =~= Seq::empty());
                    TeeAction::Read
                },
            },
            (TeePhase::Flushing, TeeEvent::Flushed(outcome)) => match outcome {
                IoOutcome::BrokenPipe => {
                    self.halt();
                    TeeAction::NotifyBroken
                },
                IoOutcome::Done | IoOutcome::Failed => {
                    let mut bytes: Vec<u8> = Vec::new();
                    bytes.append(&mut self.chunk);
                    assert(bytes@ =~= old(self).chunk@);
                    assert(self.chunk@ =~= Seq::empty());
                    self.phase = TeePhase::Offering;
                    TeeAction::Offer(StreamId::from(self.sink), bytes)
                },
            },
            (TeePhase::Offering, TeeEvent::Offered(taken)) => {
                if !taken {
                    self.drops = if self.drops == u64::MAX {
                        0
                    } else {
                        self.drops + 1
                    };
                }
                self.phase = TeePhase::Reading;
                self.chunk = Vec::new();
                assert(self.chunk@ =~= Seq::empty());
                TeeAction::Read
            },
            _ => TeeAction::Ignore,
        }
    }

    /// Stop for good.
    fn halt(&mut self)
        ensures
            final(self)@ == (TeeState {
                phase: TeePhase::Halted,
                chunk: Seq::empty(),
                ..old(self)@
            }),
    {
        self.phase = TeePhase::Halted;
        self.chunk = Vec::new();
        assert(self.chunk@ =~= Seq::empty());
    }
}

/// What a copy has done so far.
pub struct TeeLog {
    pub state: TeeState,
    /// The chunks that were read.
    pub read: Seq<Seq<u8>>,
    /// The chunks that were to be written to the parent's stream.
    pub written: Seq<Seq<u8>>,
    /// The chunks that were offered to the scanner.
    pub offered: Seq<Seq<u8>>,
    /// How many of these the scanner had no room for.
    pub refused: nat,
}

impl TeeLog {
    /// Nothing yet.
    pub open spec fn fresh(stream: StreamId) -> TeeLog {
        TeeLog {
            state: TeeState::fresh(stream),
            read: Seq::empty(),
            written: Seq::empty(),
            offered: Seq::empty(),
            refused: 0,
        }
    }

    /// The log once `event` has happened.
    pub open spec fn record(self, event: TeeEventView) -> TeeLog {
        let (state, action) = self.state.step(event);
        TeeLog {
            state,
            read: match event {
                TeeEventView::Read(bytes) if self.state.phase == TeePhase::Reading && bytes.len()
                    > 0 => self.read.push(bytes),
                _ => self.read,
            },
            written: match action {
                TeeActionView::Write(bytes) => self.written.push(bytes),
                _ => self.written,
            },
            offered: match action {
                TeeActionView::Offer(_, bytes) => self.offered.push(bytes),
                _ => self.offered,
            },
            refused: if self.state.phase == TeePhase::Offering && event == TeeEventView::Offered(
                false,
            ) {
                self.refused + 1
            } else {
                self.refused
            },
        }
    }

    /// The log once `events` have happened one after the other.
    pub open spec fn record_all(self, events: Seq<TeeEventView>) -> TeeLog
        decreases events.len(),
    {
        if events.len() == 0 {
            self
        } else {
            self.record_all(events.drop_last()).record(events.last())
        }
    }
}

/// Whether writing to the parent's stream went wrong.
pub open spec fn is_write_error(event: TeeEventView) -> bool {
    ||| event == TeeEventView::Written(IoOutcome::BrokenPipe)
    ||| event == TeeEventView::Written(IoOutcome::Failed)
    ||| event == TeeEventView::Flushed(IoOutcome::BrokenPipe)
}

/// The parent's stream gets what was read, byte for byte and in order, whatever becomes of the
/// scanner.
pub proof fn law_parent_gets_every_byte(stream: StreamId, events: Seq<TeeEventView>)
    ensures
        TeeLog::fresh(stream).record_all(events).written == TeeLog::fresh(stream).record_all(
            events,
        ).read,
    decreases events.len(),
{
    if events.len() > 0 {
        law_parent_gets_every_byte(stream, events.drop_last());
    }
}

/// Whether `at` says for each item of `part` where in `whole` it stands, one behind the other.
pub open spec fn picks<A>(at: Seq<int>, part: Seq<A>, whole: Seq<A>) -> bool {
    &&& at.len() == part.len()
    &&& forall|k: int|
        0 <= k < at.len() ==> 0 <= #[trigger] at[k] < whole.len() && part[k] == whole[at[k]]
    &&& forall|k: int, l: int| 0 <= k < l < at.len() ==> at[k] < at[l]
}

/// Whether the items of `part` are among those of `whole`, in their order.
pub open spec fn is_subsequence<A>(part: Seq<A>, whole: Seq<A>) -> bool {
    exists|at: Seq<int>| picks(at, part, whole)
}

/// A subsequence stays one where the whole grows, and where both do by the same item.
proof fn lemma_subsequence_grows<A>(part: Seq<A>, whole: Seq<A>, next: A)
    requires
        is_subsequence(part, whole),
    ensures
        is_subsequence(part, whole.push(next)),
        is_subsequence(part.push(next), whole.push(next)),
{
    let at = choose|at: Seq<int>| picks(at, part, whole);
    assert(picks(at, part, whole.push(next)));
    assert(picks(at.push(whole.len() as int), part.push(next), whole.push(next)));
}

/// The scanner comes second: it is offered no chunk that was not written before. What it is offered
/// are chunks that were written, in their order; the one that is being written is not yet among
/// them.
pub proof fn law_scanner_comes_second(stream: StreamId, events: Seq<TeeEventView>)
    ensures
        ({
            let log = TeeLog::fresh(stream).record_all(events);
            &&& log.state.stream == stream
            &&& is_subsequence(log.offered, log.written)
            &&& log.state.phase == TeePhase::Writing || log.state.phase == TeePhase::Flushing ==> {
                &&& log.written.len() > 0
                &&& log.state.chunk == log.written.last()
                &&& is_subsequence(log.offered, log.written.drop_last())
            }
        }),
    decreases events.len(),
{
    let log = TeeLog::fresh(stream).record_all(events);
    if events.len() == 0 {
        assert(picks(Seq::empty(), log.offered, log.written));
    } else {
        law_scanner_comes_second(stream, events.drop_last());
        let before = TeeLog::fresh(stream).record_all(events.drop_last());
        if log.written.len() > before.written.len() {
            assert(log.written.drop_last() =~= before.written);
            lemma_subsequence_grows(before.offered, before.written, log.written.last());
        }
        if log.offered.len() > before.offered.len() {
            let chunk = before.state.chunk;
            assert(before.written.drop_last().push(chunk) =~= before.written);
            lemma_subsequence_grows(before.offered, before.written.drop_last(), chunk);
        }
    }
}

/// While the parent's stream can be written to, the scanner is offered every chunk, in order: all
/// that was written, but for the one that is still on its way.
pub proof fn law_every_chunk_is_offered(stream: StreamId, events: Seq<TeeEventView>)
    requires
        forall|i: int| 0 <= i < events.len() ==> !is_write_error(#[trigger] events[i]),
    ensures
        ({
            let log = TeeLog::fresh(stream).record_all(events);
            if log.state.phase == TeePhase::Writing || log.state.phase == TeePhase::Flushing {
                log.written == log.offered.push(log.state.chunk)
            } else {
                log.written == log.offered
            }
        }),
    decreases events.len(),
{
    if events.len() > 0 {
        assert forall|i: int| 0 <= i < events.len() - 1 implies !is_write_error(
            #[trigger] events.drop_last()[i],
        ) by {
            assert(events.drop_last()[i] == events[i]);
        }
        law_every_chunk_is_offered(stream, events.drop_last());
        assert(!is_write_error(events[events.len() - 1]));
    }
}

/// The drop counter counts the chunks that the scanner had no room for, up to its size.
pub proof fn law_drops_are_counted(stream: StreamId, events: Seq<TeeEventView>)
    ensures
        ({
            let log = TeeLog::fresh(stream).record_all(events);
            &&& log.refused <= log.offered.len()
            &&& log.refused <= u64::MAX ==> log.state.drops == log.refused
            &&& log.state.phase == TeePhase::Offering ==> log.refused < log.offered.len()
        }),
    decreases events.len(),
{
    if events.len() > 0 {
        law_drops_are_counted(stream, events.drop_last());
    }
}

/// How reading went.
#[derive(Debug, Clone, Copy, PartialEq, Eq, Structural)]
pub enum ReadOutcome {
    /// So many bytes were read; none, at the end of the stream.
    Bytes(usize),
    /// The call was interrupted.
    Interrupted,
    Failed,
}

/// What a reader does next.
#[derive(Debug, Clone, Copy, PartialEq, Eq, Structural)]
pub enum ReaderStep {
    /// Hand on so many bytes.
    Forward(usize),
    /// Read again.
    Again,
    Stop,
}

/// What a reader does once it has read: it hands on what it got, and stops at the end of the
/// stream and on an error other than an interruption.
pub fn after_read(outcome: ReadOutcome) -> (r: ReaderStep)
    ensures
        r == (match outcome {
            ReadOutcome::Bytes(n) => if n == 0 {
                ReaderStep::Stop
            } else {
                ReaderStep::Forward(n)
            },
            ReadOutcome::Interrupted => ReaderStep::Again,
            ReadOutcome::Failed => ReaderStep::Stop,
        }),
{
    match outcome {
        ReadOutcome::Bytes(n) => if n == 0 {
            ReaderStep::Stop
        } else {
            ReaderStep::Forward(n)
        },
        ReadOutcome::Interrupted => ReaderStep::Again,
        ReadOutcome::Failed => ReaderStep::Stop,
    }
}

/// What a reader does once it has handed bytes on: it stops where nobody takes them any more.
pub fn after_forward(taken: bool) -> (r: ReaderStep)
    ensures
        r == (if taken {
            ReaderStep::Again
        } else {
            ReaderStep::Stop
        }),
{
    if taken {
        ReaderStep::Again
    } else {
        ReaderStep::Stop
    }
}

/// A copy goes on: it halts only where the stream has ended or cannot be read, or the parent's
/// stream is broken. Nothing that a chunk holds, no other error and no answer of the scanner halts
/// it, and once halted it stays so.
pub proof fn law_a_copy_goes_on(s: TeeState, event: TeeEventView)
    ensures
        s.step(event).0.phase == TeePhase::Halted <==> {
            ||| s.phase == TeePhase::Halted
            ||| s.phase == TeePhase::Reading && event == TeeEventView::ReadFailed
            ||| s.phase == TeePhase::Reading && (event matches TeeEventView::Read(bytes)
                && bytes.len() == 0)
            ||| s.phase == TeePhase::Writing && event == TeeEventView::Written(
                IoOutcome::BrokenPipe,
            )
            ||| s.phase == TeePhase::Flushing && event == TeeEventView::Flushed(
                IoOutcome::BrokenPipe,
            )
        },
        s.phase == TeePhase::Halted ==> s.step(event) == (s, TeeActionView::Ignore),
        s.step(event).0.stream == s.stream,
{
}

/// Where a copy halts it says why: a broken stream of the parent is told, an end is not.
pub proof fn law_a_broken_stream_is_told(s: TeeState, event: TeeEventView)
    requires
        s.phase != TeePhase::Halted,
    ensures
        s.step(event).1 is NotifyBroken <==> {
            ||| s.phase == TeePhase::Writing && event == TeeEventView::Written(
                IoOutcome::BrokenPipe,
            )
            ||| s.phase == TeePhase::Flushing && event == TeeEventView::Flushed(
                IoOutcome::BrokenPipe,
            )
        },
        s.step(event).1 is Stop <==> {
            ||| s.phase == TeePhase::Reading && event == TeeEventView::ReadFailed
            ||| s.phase == TeePhase::Reading && (event matches TeeEventView::Read(bytes)
                && bytes.len() == 0)
        },
        s.step(event).0.drops != s.drops ==> s.phase == TeePhase::Offering && event
            == TeeEventView::Offered(false),
{
}

/// A chunk goes its way, whatever it holds and however long it is: all of it is written, then
/// flushed, then offered as it was read, and whatever the scanner says, the copy reads on, with
/// nothing left of the chunk. Of the answers only a refusal leaves a trace, in the counter.
pub proof fn law_a_chunk_goes_its_way(s: TeeState, bytes: Seq<u8>, flushed: IoOutcome, taken: bool)
    requires
        s.phase == TeePhase::Reading,
        bytes.len() > 0,
        flushed != IoOutcome::BrokenPipe,
    ensures
        ({
            let read = s.step(TeeEventView::Read(bytes));
            let written = read.0.step(TeeEventView::Written(IoOutcome::Done));
            let offered = written.0.step(TeeEventView::Flushed(flushed));
            let done = offered.0.step(TeeEventView::Offered(taken));
            &&& read.1 == TeeActionView::Write(bytes)
            &&& read.0.chunk == bytes
            &&& written.1 is Flush
            &&& offered.1 == TeeActionView::Offer(s.stream, bytes)
            &&& offered.0.phase == TeePhase::Offering
            &&& done.1 is Read
            &&& done.0.phase == TeePhase::Reading
            &&& done.0.stream == s.stream
            &&& done.0.chunk.len() == 0
            &&& taken ==> done.0.drops == s.drops
            &&& !taken && s.drops < u64::MAX ==> done.0.drops == s.drops + 1
            &&& !taken && s.drops == u64::MAX ==> done.0.drops == 0
        }),
{
}

/// A chunk that cannot be written is let go, and the copy reads on.
pub proof fn law_a_failed_write_is_passed_over(s: TeeState, bytes: Seq<u8>)
    requires
        s.phase == TeePhase::Reading,
        bytes.len() > 0,
    ensures
        ({
            let read = s.step(TeeEventView::Read(bytes));
            let done = read.0.step(TeeEventView::Written(IoOutcome::Failed));
            &&& read.1 == TeeActionView::Write(bytes)
            &&& done.1 is Read
            &&& done.0.phase == TeePhase::Reading
            &&& done.0.chunk.len() == 0
            &&& done.0.drops == s.drops
        }),
{
}

/// What a copy does not wait for changes nothing.
pub proof fn law_other_events_are_ignored(s: TeeState, event: TeeEventView)
    requires
        !(s.phase == TeePhase::Reading && (event is Read || event is ReadFailed)),
        !(s.phase == TeePhase::Writing && event is Written),
        !(s.phase == TeePhase::Flushing && event is Flushed),
        !(s.phase == TeePhase::Offering && event is Offered),
    ensures
        s.step(event) == (s, TeeActionView::Ignore),
{
}

/// How the parent's stream and the scanner answer for one chunk: whether writing worked, whether
/// flushing did, whether the scanner had room.
pub struct Answers {
    pub written: bool,
    pub flushed: bool,
    pub taken: bool,
}

/// What happens while `chunks` come and each action is answered.
pub open spec fn course(chunks: Seq<Seq<u8>>, answers: Seq<Answers>) -> Seq<TeeEventView>
    decreases chunks.len(),
{
    if chunks.len() == 0 {
        Seq::empty()
    } else {
        let a = answers.last();
        let before = course(chunks.drop_last(), answers.drop_last()).push(
            TeeEventView::Read(chunks.last()),
        );
        if a.written {
            before.push(TeeEventView::Written(IoOutcome::Done)).push(
                TeeEventView::Flushed(
                    if a.flushed {
                        IoOutcome::Done
                    } else {
                        IoOutcome::Failed
                    },
                ),
            ).push(TeeEventView::Offered(a.taken))
        } else {
            before.push(TeeEventView::Written(IoOutcome::Failed))
        }
    }
}

/// The parent gets the whole stream: of a copy whose actions are answered, every chunk that comes is
/// written, all of it and in order, whatever the answers are short of a broken stream, and the copy
/// then waits for the next.
pub proof fn law_every_chunk_is_written(
    stream: StreamId,
    chunks: Seq<Seq<u8>>,
    answers: Seq<Answers>,
)
    requires
        answers.len() == chunks.len(),
        forall|i: int| 0 <= i < chunks.len() ==> (#[trigger] chunks[i]).len() > 0,
    ensures
        ({
            let log = TeeLog::fresh(stream).record_all(course(chunks, answers));
            &&& log.written == chunks
            &&& log.state.phase == TeePhase::Reading
            &&& log.state.stream == stream
        }),
    decreases chunks.len(),
{
    if chunks.len() > 0 {
        let earlier = chunks.drop_last();
        assert forall|i: int| 0 <= i < earlier.len() implies (#[trigger] earlier[i]).len()
            > 0 by {
            assert(earlier[i] == chunks[i]);
        }
        law_every_chunk_is_written(stream, earlier, answers.drop_last());
        let a = answers.last();
        let fresh = TeeLog::fresh(stream);
        let front = course(earlier, answers.drop_last());
        let read = front.push(TeeEventView::Read(chunks.last()));
        lemma_record_push(fresh, front, TeeEventView::Read(chunks.last()));
        assert(chunks[chunks.len() - 1].len() > 0);
        if a.written {
            let outcome = if a.flushed {
                IoOutcome::Done
            } else {
                IoOutcome::Failed
            };
            let written = read.push(TeeEventView::Written(IoOutcome::Done));
            let flushed = written.push(TeeEventView::Flushed(outcome));
            lemma_record_push(fresh, read, TeeEventView::Written(IoOutcome::Done));
            lemma_record_push(fresh, written, TeeEventView::Flushed(outcome));
            lemma_record_push(fresh, flushed, TeeEventView::Offered(a.taken));
        } else {
            lemma_record_push(fresh, read, TeeEventView::Written(IoOutcome::Failed));
        }
        assert(earlier.push(chunks.last()) =~= chunks);
    } else {
        assert(chunks =~= Seq::empty());
    }
}

/// One more event is recorded behind the others.
proof fn lemma_record_push(log: TeeLog, events: Seq<TeeEventView>, event: TeeEventView)
    ensures
        log.record_all(events.push(event)) == log.record_all(events).record(event),
{
    assert(events.push(event).drop_last() =~= events);
}

/// A copy starts by reading, with nothing in hand and nothing counted, and its stream is the one
/// that its sink is named after.
pub proof fn law_a_copy_starts_by_reading(stream: StreamId)
    ensures
        TeeState::fresh(stream).phase == TeePhase::Reading,
        TeeState::fresh(stream).stream == stream,
        TeeState::fresh(stream).chunk.len() == 0,
        TeeState::fresh(stream).drops == 0,
        stream_of(SinkKind::Stdout) == StreamId::Stdout,
        stream_of(SinkKind::Stderr) == StreamId::Stderr,
{
}

/// What is known of an event and of an action is what they carry, byte by byte; what is written is
/// the chunk.
pub proof fn law_tee_events_are_seen_whole(event: TeeEvent, action: TeeAction, chunk: Seq<u8>)
    ensures
        event matches TeeEvent::Read(bytes) ==> event@ == TeeEventView::Read(bytes@),
        event is ReadFailed <==> event@ is ReadFailed,
        event matches TeeEvent::Written(outcome) ==> event@ == TeeEventView::Written(outcome),
        event matches TeeEvent::Flushed(outcome) ==> event@ == TeeEventView::Flushed(outcome),
        event matches TeeEvent::Offered(taken) ==> event@ == TeeEventView::Offered(taken),
        action is Read <==> action.on(chunk) is Read,
        action is Write <==> action.on(chunk) is Write,
        action is Write ==> action.on(chunk) == TeeActionView::Write(chunk),
        action is Flush <==> action.on(chunk) is Flush,
        action matches TeeAction::Offer(stream, bytes) ==> action.on(chunk) == TeeActionView::Offer(
            stream,
            bytes@,
        ),
        action is NotifyBroken <==> action.on(chunk) is NotifyBroken,
        action is Stop <==> action.on(chunk) is Stop,
        action is Ignore <==> action.on(chunk) is Ignore,
{
}

} // verus!
