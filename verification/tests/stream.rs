use ternary_kernel_launch::{KernelConfig, StreamQueue};

#[test]
fn stream_enqueue_and_count() {
    let mut s = StreamQueue::new(0);
    assert_eq!(s.pending_count(), 0);
    s.enqueue(KernelConfig::new(1, 64), 1024);
    s.enqueue(KernelConfig::new(2, 128), 2048);
    assert_eq!(s.pending_count(), 2);
}

#[test]
fn stream_step_ordering() {
    let mut s = StreamQueue::new(0);
    let seq0 = s.enqueue(KernelConfig::new(1, 64).with_name("first"), 1024);
    let seq1 = s.enqueue(KernelConfig::new(2, 64).with_name("second"), 2048);
    let done0 = s.step(1_000_000_000);
    assert_eq!(done0, Some(seq0));
    let done1 = s.step(1_000_000_000);
    assert_eq!(done1, Some(seq1));
    assert_eq!(s.completed_seqs(), vec![seq0, seq1]);
}

#[test]
fn stream_flush_all() {
    let mut s = StreamQueue::new(1);
    for i in 0..10 {
        s.enqueue(KernelConfig::new(i + 1, 64), 512);
    }
    let count = s.flush(1_000_000_000);
    assert_eq!(count, 10);
    assert_eq!(s.pending_count(), 0);
    assert_eq!(s.completed_count(), 10);
}

#[test]
fn stream_step_empty_returns_none() {
    let mut s = StreamQueue::new(2);
    assert!(s.step(1_000).is_none());
}

#[test]
fn stream_preserves_fifo_order() {
    let mut s = StreamQueue::new(3);
    let seqs: Vec<u64> = (0..5)
        .map(|i| s.enqueue(KernelConfig::new(i + 1, 32).with_name(format!("k{}", i)), 256))
        .collect();
    s.flush(1_000_000_000);
    assert_eq!(s.completed_seqs(), seqs);
}

#[test]
fn stream_keeps_its_id() {
    let mut s = StreamQueue::new(42);
    s.enqueue(KernelConfig::new(1, 1), 0);
    s.flush(0);
    assert_eq!(s.id(), 42);
}

#[test]
fn stream_numbers_launches_from_zero() {
    let mut s = StreamQueue::new(0);
    assert_eq!(s.enqueue(KernelConfig::new(1, 1), 1), 0);
    assert_eq!(s.enqueue(KernelConfig::new(1, 1), 1), 1);
    assert_eq!(s.step(1), Some(0));
    assert_eq!(s.enqueue(KernelConfig::new(1, 1), 1), 2);
    assert_eq!(s.flush(1), 2);
    assert_eq!(s.completed_seqs(), vec![0, 1, 2]);
    assert_eq!(s.flush(1), 0);
    assert_eq!(s.completed_count(), 3);
}

fn nanos(payload_size: u64, throughput_bps: u64) -> u64 {
    let mut s = StreamQueue::new(0);
    s.enqueue(KernelConfig::new(1, 1), payload_size);
    assert_eq!(s.step(throughput_bps), Some(0));
    s.completed()[0].duration_nanos
}

#[test]
fn stream_durations() {
    assert_eq!(nanos(1024, 1_000_000_000), 1024);
    assert_eq!(nanos(3, 2_000_000_000), 1);
    assert_eq!(nanos(7, 2_000_000_000), 3);
    assert_eq!(nanos(5, 2), 2_500_000_000);
    // never less than a nanosecond
    assert_eq!(nanos(0, 1), 1);
    assert_eq!(nanos(1, u64::MAX), 1);
    // without a throughput, 1 GiB/s
    assert_eq!(nanos(0, 0), 1);
    assert_eq!(nanos(2048, 0), 1907);
    assert_eq!(nanos(1 << 30, 0), 1_000_000_000);
    assert_eq!(nanos(u64::MAX, 0), 17179869183999999999);
    // a payload of 20 GB at 1 GB/s
    assert_eq!(nanos(20_000_000_000, 1_000_000_000), 20_000_000_000);
    // the longest durations
    assert_eq!(nanos(18_446_744_073, 1), 18_446_744_073_000_000_000);
    assert_eq!(nanos(u64::MAX, 1_000_000_000), u64::MAX);
}

#[test]
fn stream_durations_are_monotone() {
    assert!(nanos(100, 7) <= nanos(101, 7));
    assert!(nanos(100, 8) <= nanos(100, 7));
    assert_eq!(nanos(100, 0), nanos(100, 1_073_741_824));
}

#[test]
fn stream_steps_add_up_to_a_flush() {
    let mut a = StreamQueue::new(0);
    let mut b = StreamQueue::new(0);
    for i in 0..4 {
        a.enqueue(KernelConfig::new(i + 1, 8), 100 * i as u64);
        b.enqueue(KernelConfig::new(i + 1, 8), 100 * i as u64);
    }
    assert_eq!(a.flush(1000), 4);
    while b.step(1000).is_some() {}
    assert_eq!(a.completed_seqs(), b.completed_seqs());
    for i in 0..4 {
        let (x, y) = (&a.completed()[i], &b.completed()[i]);
        assert_eq!(x.config.grid_size, y.config.grid_size);
        assert_eq!(x.duration_nanos, y.duration_nanos);
    }
}

#[test]
fn stream_late_launch_runs_last() {
    let mut s = StreamQueue::new(0);
    s.enqueue(KernelConfig::new(1, 1).with_name("a"), 1);
    s.enqueue(KernelConfig::new(1, 1).with_name("b"), 1);
    s.step(1);
    s.enqueue(KernelConfig::new(1, 1).with_name("c"), 1);
    s.flush(1);
    let names: Vec<Option<&str>> = s.completed().iter().map(|k| k.config.name.as_deref()).collect();
    assert_eq!(names, vec![Some("a"), Some("b"), Some("c")]);
}

#[test]
fn stream_documented_use() {
    let mut stream = StreamQueue::new(0);
    stream.enqueue(KernelConfig::new(10, 256).with_name("layer_0"), 102400);
    stream.enqueue(KernelConfig::new(20, 128).with_name("layer_1"), 204800);
    stream.flush(1_000_000_000);
    assert_eq!(stream.completed_count(), 2);
    assert_eq!(stream.completed()[1].duration_nanos, 204800);
}
