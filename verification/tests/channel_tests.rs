use audio_sender::channel::{PopOutcome, SampleChannel};

#[test]
fn fifo_order_then_closed() {
    let buffers: Vec<Vec<u32>> = vec![vec![1, 2], vec![3], vec![], vec![4, 5, 6]];
    let mut ch = SampleChannel::new();
    for b in &buffers {
        ch.push(b.clone());
    }
    ch.close();
    for expected in &buffers {
        match ch.pop() {
            PopOutcome::Received(b) => assert_eq!(&b, expected),
            other => panic!("expected a buffer, got {:?}", other),
        }
    }
    assert!(matches!(ch.pop(), PopOutcome::Closed));
    assert!(matches!(ch.pop(), PopOutcome::Closed));
}

#[test]
fn pop_on_open_empty_channel_is_pending() {
    let mut ch = SampleChannel::new();
    assert!(matches!(ch.pop(), PopOutcome::Pending));
    assert!(matches!(ch.pop(), PopOutcome::Pending));
}

#[test]
fn pushes_never_blocked_by_idle_consumer() {
    // Backpressure policy: with no pops at all, every push lands and the
    // queue just grows.
    let mut ch = SampleChannel::new();
    for i in 0..10_000u32 {
        ch.push(vec![i; 8]);
        assert_eq!(ch.len(), (i + 1) as usize);
    }
    assert_eq!(ch.len(), 10_000);
}

#[test]
fn close_keeps_queued_buffers() {
    let mut ch = SampleChannel::new();
    ch.push(vec![42]);
    ch.close();
    match ch.pop() {
        PopOutcome::Received(b) => assert_eq!(b, vec![42]),
        other => panic!("expected the queued buffer, got {:?}", other),
    }
    assert!(matches!(ch.pop(), PopOutcome::Closed));
}
