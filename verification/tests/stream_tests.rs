use inference_server::channel::{Channel, Terminal};
use inference_server::stream::{AbortableStream, CancellationSignal, StreamItem};
use inference_server::worker::{run_worker, worker_step, GenEvent};

#[test]
fn signal_starts_unset_and_never_resets() {
    let mut sig = CancellationSignal::new();
    assert!(!sig.query());
    sig.fire();
    assert!(sig.query());
    sig.fire();
    assert!(sig.query());
}

#[test]
fn stream_yields_chunks_then_a_clean_end() {
    let mut ch = Channel::new();
    run_worker(&mut ch, vec![vec![1], vec![2]]);
    let mut s = AbortableStream::new(ch, CancellationSignal::new());
    match s.poll_next() {
        StreamItem::Bytes(b) => assert_eq!(b, vec![1]),
        other => panic!("expected bytes, got {:?}", other),
    }
    match s.poll_next() {
        StreamItem::Bytes(b) => assert_eq!(b, vec![2]),
        other => panic!("expected bytes, got {:?}", other),
    }
    assert!(matches!(s.poll_next(), StreamItem::EndOfStream));
}

#[test]
fn stream_waits_while_the_worker_is_still_generating() {
    let ch = Channel::new();
    let mut s = AbortableStream::new(ch, CancellationSignal::new());
    assert!(matches!(s.poll_next(), StreamItem::NotReady));
}

#[test]
fn error_terminator_ends_the_response_as_a_failure() {
    let mut ch = Channel::new();
    worker_step(&mut ch, false, GenEvent::Failed);
    let mut s = AbortableStream::new(ch, CancellationSignal::new());
    assert!(matches!(s.poll_next(), StreamItem::TransportError));
}

#[test]
fn abort_ends_the_stream_cleanly_after_delivered_output() {
    let mut ch = Channel::new();
    worker_step(&mut ch, true, GenEvent::Token(vec![9]));
    let mut s = AbortableStream::new(ch, CancellationSignal::new());
    assert!(matches!(s.poll_next(), StreamItem::Bytes(_)));
    assert!(matches!(s.poll_next(), StreamItem::EndOfStream));
}

#[test]
fn early_termination_sets_the_signal_and_keeps_the_channel() {
    let mut ch = Channel::new();
    ch.send(vec![4]);
    let mut s = AbortableStream::new(ch, CancellationSignal::new());
    s.terminate_early();
    assert!(s.signal.query());
    // Already-queued output is not retracted by the abort itself.
    match s.poll_next() {
        StreamItem::Bytes(b) => assert_eq!(b, vec![4]),
        other => panic!("expected bytes, got {:?}", other),
    }
}
