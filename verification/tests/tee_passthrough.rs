//! Copying output: the parent first, byte for byte, then the scanner.

use smited_watch::scan::StreamId;
use smited_watch::wrap::tee::{
    after_forward, after_read, IoOutcome, ReadOutcome, ReaderStep, SinkKind, Tee, TeeAction,
    TeeEvent, CHANNEL_CAPACITY, READ_BUF,
};

/// Run a copy over `chunks` with a scanner that has room for `room` of them. What the parent got,
/// what the scanner got, and how many chunks it did not get.
fn copy(sink: SinkKind, chunks: &[&[u8]], room: usize) -> (Vec<u8>, Vec<(StreamId, Vec<u8>)>, u64) {
    let mut tee = Tee::new(sink);
    let mut parent: Vec<u8> = Vec::new();
    let mut scanned: Vec<(StreamId, Vec<u8>)> = Vec::new();
    let mut input = chunks.iter();
    let mut action = TeeAction::Read;
    loop {
        let event = match action {
            TeeAction::Read => TeeEvent::Read(input.next().map(|c| c.to_vec()).unwrap_or_default()),
            TeeAction::Write => {
                parent.extend_from_slice(tee.chunk());
                TeeEvent::Written(IoOutcome::Done)
            }
            TeeAction::Flush => TeeEvent::Flushed(IoOutcome::Done),
            TeeAction::Offer(stream, bytes) => {
                let taken = scanned.len() < room;
                if taken {
                    scanned.push((stream, bytes));
                }
                TeeEvent::Offered(taken)
            }
            TeeAction::NotifyBroken | TeeAction::Stop | TeeAction::Ignore => break,
        };
        action = tee.step(event);
    }
    (parent, scanned, tee.drops())
}

#[test]
fn stdout_is_forwarded_verbatim() {
    let (parent, scanned, drops) = copy(SinkKind::Stdout, &[b"hello\n"], 10);
    assert_eq!(String::from_utf8_lossy(&parent), "hello\n");
    assert_eq!(scanned, vec![(StreamId::Stdout, b"hello\n".to_vec())]);
    assert_eq!(drops, 0);
}

#[test]
fn stderr_is_forwarded_verbatim() {
    let (parent, scanned, _) = copy(SinkKind::Stderr, &[b"to-", b"stderr\n"], 10);
    assert_eq!(String::from_utf8_lossy(&parent), "to-stderr\n");
    assert!(scanned.iter().all(|(s, _)| *s == StreamId::Stderr));
}

#[test]
fn one_megabyte_stdout_does_not_deadlock_or_drop_bytes() {
    let input = vec![0u8; 1_000_000];
    let chunks: Vec<&[u8]> = input.chunks(READ_BUF).collect();
    // Not even a scanner without any room costs the parent a byte.
    let (parent, scanned, drops) = copy(SinkKind::Stdout, &chunks, 0);
    assert_eq!(
        parent.len(),
        1_000_000,
        "expected 1MB of zero-bytes through stdout, got {} bytes",
        parent.len()
    );
    assert!(
        parent.iter().all(|&b| b == 0),
        "every byte should be 0 (the input was /dev/zero)"
    );
    assert!(scanned.is_empty());
    assert_eq!(drops, chunks.len() as u64);
}

#[test]
fn a_full_scanner_is_counted() {
    let (parent, scanned, drops) = copy(SinkKind::Stdout, &[b"a", b"b", b"c"], 1);
    assert_eq!(parent, b"abc");
    assert_eq!(scanned.len(), 1);
    assert_eq!(drops, 2);
}

#[test]
fn a_broken_parent_stops_the_copy() {
    let mut tee = Tee::new(SinkKind::Stdout);
    assert!(matches!(
        tee.step(TeeEvent::Read(b"x".to_vec())),
        TeeAction::Write
    ));
    assert!(matches!(
        tee.step(TeeEvent::Written(IoOutcome::BrokenPipe)),
        TeeAction::NotifyBroken
    ));
    assert!(matches!(
        tee.step(TeeEvent::Read(b"y".to_vec())),
        TeeAction::Ignore
    ));

    let mut tee = Tee::new(SinkKind::Stdout);
    tee.step(TeeEvent::Read(b"x".to_vec()));
    assert!(matches!(
        tee.step(TeeEvent::Written(IoOutcome::Done)),
        TeeAction::Flush
    ));
    assert!(matches!(
        tee.step(TeeEvent::Flushed(IoOutcome::BrokenPipe)),
        TeeAction::NotifyBroken
    ));
}

#[test]
fn other_errors_do_not_stop_the_copy() {
    // A failed write loses the chunk for the scanner.
    let mut tee = Tee::new(SinkKind::Stderr);
    tee.step(TeeEvent::Read(b"x".to_vec()));
    assert!(matches!(
        tee.step(TeeEvent::Written(IoOutcome::Failed)),
        TeeAction::Read
    ));
    // A failed flush does not.
    tee.step(TeeEvent::Read(b"y".to_vec()));
    tee.step(TeeEvent::Written(IoOutcome::Done));
    match tee.step(TeeEvent::Flushed(IoOutcome::Failed)) {
        TeeAction::Offer(stream, bytes) => {
            assert_eq!(stream, StreamId::Stderr);
            assert_eq!(bytes, b"y");
        }
        other => panic!("expected an offer, got {other:?}"),
    }
    assert!(matches!(
        tee.step(TeeEvent::Offered(true)),
        TeeAction::Read
    ));
    // A failed read ends it.
    assert!(matches!(tee.step(TeeEvent::ReadFailed), TeeAction::Stop));
    assert_eq!(tee.drops(), 0);
}

#[test]
fn readers_stop_at_the_end_and_on_errors() {
    assert_eq!(after_read(ReadOutcome::Bytes(0)), ReaderStep::Stop);
    assert_eq!(after_read(ReadOutcome::Bytes(12)), ReaderStep::Forward(12));
    assert_eq!(after_read(ReadOutcome::Interrupted), ReaderStep::Again);
    assert_eq!(after_read(ReadOutcome::Failed), ReaderStep::Stop);
    assert_eq!(after_forward(true), ReaderStep::Again);
    assert_eq!(after_forward(false), ReaderStep::Stop);
}

#[test]
fn sinks_name_their_streams() {
    assert_eq!(StreamId::from(SinkKind::Stdout), StreamId::Stdout);
    assert_eq!(StreamId::from(SinkKind::Stderr), StreamId::Stderr);
    assert_eq!(CHANNEL_CAPACITY, 1024);
    assert_eq!(READ_BUF, 8192);
}
