use std::sync::atomic::{AtomicU64, Ordering};
use std::sync::Arc;
use std::time::{Duration, Instant};
use ternary_kernel_launch::{EventPool, KernelConfig, StreamQueue, WaitAction};

#[test]
fn event_record_and_check() {
    let completed_seq = Arc::new(AtomicU64::new(0));
    let mut pool = EventPool::new(completed_seq.clone());

    let ev0 = pool.record(0, Some("start".into()));
    let ev1 = pool.record(2, Some("mid".into()));
    let ev2 = pool.record(4, None);

    // Nothing done yet
    assert_eq!(pool.is_completed(ev0), Some(false));
    assert_eq!(pool.is_completed(ev1), Some(false));

    // Advance stream completion to seq 3
    completed_seq.store(3, Ordering::SeqCst);
    assert_eq!(pool.is_completed(ev0), Some(true)); // recorded at 0, needs ≥1
    assert_eq!(pool.is_completed(ev1), Some(true)); // recorded at 2, needs ≥3
    assert_eq!(pool.is_completed(ev2), Some(false)); // recorded at 4, needs ≥5
}

#[test]
fn event_unknown_returns_none() {
    let completed_seq = Arc::new(AtomicU64::new(0));
    let pool = EventPool::new(completed_seq);
    assert_eq!(pool.is_completed(999), None);
}

#[test]
fn event_pool_len() {
    let completed_seq = Arc::new(AtomicU64::new(0));
    let mut pool = EventPool::new(completed_seq);
    assert!(pool.is_empty());
    pool.record(0, None);
    pool.record(1, None);
    assert_eq!(pool.len(), 2);
}

#[test]
fn stream_event_integration() {
    let mut s = StreamQueue::new(0);
    let completed_seq = Arc::new(AtomicU64::new(0));
    let mut pool = EventPool::new(completed_seq.clone());

    // Enqueue 3 kernels
    let seq0 = s.enqueue(KernelConfig::new(1, 64), 1024);
    let seq1 = s.enqueue(KernelConfig::new(2, 64), 2048);
    let _seq2 = s.enqueue(KernelConfig::new(3, 64), 4096);

    // Record event after second kernel
    let ev = pool.record(seq1, Some("after_second".into()));

    // Complete first two
    s.step(1_000_000_000);
    completed_seq.store(seq0 + 1, Ordering::SeqCst);
    assert_eq!(pool.is_completed(ev), Some(false));

    s.step(1_000_000_000);
    completed_seq.store(seq1 + 1, Ordering::SeqCst);
    assert_eq!(pool.is_completed(ev), Some(true));
}

#[test]
fn event_documented_use() {
    let completed_seq = Arc::new(AtomicU64::new(0));
    let mut pool = EventPool::new(completed_seq.clone());
    let ev = pool.record(5, Some("checkpoint".into()));
    completed_seq.store(6, Ordering::SeqCst);
    assert_eq!(pool.is_completed(ev), Some(true));
}

#[test]
fn event_ids_count_from_zero() {
    let mut pool = EventPool::new(Arc::new(AtomicU64::new(0)));
    assert_eq!(pool.record(7, Some("seven".into())), 0);
    assert_eq!(pool.record(7, None), 1);
    assert_eq!(pool.record(3, None), 2);
    let first = pool.find(0).unwrap();
    assert_eq!((first.id, first.recorded_seq), (0, 7));
    assert_eq!(first.name.as_deref(), Some("seven"));
    assert_eq!(pool.find(2).unwrap().recorded_seq, 3);
    assert!(pool.find(3).is_none());
}

#[test]
fn event_completion_at_given_progress() {
    let mut pool = EventPool::new(Arc::new(AtomicU64::new(0)));
    let ev = pool.record(4, None);
    assert_eq!(pool.is_completed_at(ev, 4), Some(false));
    assert_eq!(pool.is_completed_at(ev, 5), Some(true));
    assert_eq!(pool.is_completed_at(ev, u64::MAX), Some(true));
    assert_eq!(pool.is_completed_at(ev + 1, u64::MAX), None);
    let never = pool.record(u64::MAX, None);
    assert_eq!(pool.is_completed(never), Some(false));
    assert_eq!(pool.is_completed_at(never, 0), Some(false));
    assert_eq!(pool.is_completed_at(never, u64::MAX), Some(false));
    let last = pool.record(u64::MAX - 1, None);
    assert_eq!(pool.is_completed_at(last, u64::MAX - 1), Some(false));
    assert_eq!(pool.is_completed_at(last, u64::MAX), Some(true));
}

#[test]
fn event_tracks_every_step_of_a_stream() {
    let mut s = StreamQueue::new(0);
    let mut pool = EventPool::new(Arc::new(AtomicU64::new(0)));
    let events: Vec<u64> = (0..6)
        .map(|i| {
            let seq = s.enqueue(KernelConfig::new(i + 1, 1), 1);
            pool.record(seq, None)
        })
        .collect();
    for done in 0..=6usize {
        assert_eq!(s.completed_count(), done);
        for (i, ev) in events.iter().enumerate() {
            let ran = s.completed_seqs().contains(&(i as u64));
            assert_eq!(pool.is_completed_at(*ev, done as u64), Some(ran));
        }
        s.step(1);
    }
}

#[test]
fn wait_decisions() {
    assert_eq!(EventPool::wait_step(Some(true), false), WaitAction::Finish(true));
    assert_eq!(EventPool::wait_step(Some(true), true), WaitAction::Finish(true));
    assert_eq!(EventPool::wait_step(Some(false), false), WaitAction::Retry);
    assert_eq!(EventPool::wait_step(None, false), WaitAction::Retry);
    assert_eq!(EventPool::wait_step(Some(false), true), WaitAction::Finish(false));
    assert_eq!(EventPool::wait_step(None, true), WaitAction::Finish(false));
}

/// Waits as a caller would: asks about the event, looks at the clock, and does
/// what the pool decides.
fn wait(pool: &EventPool, event_id: u64, timeout: Duration, mut between: impl FnMut()) -> bool {
    let deadline = Instant::now() + timeout;
    loop {
        let status = pool.is_completed(event_id);
        let timed_out = Instant::now() >= deadline;
        match EventPool::wait_step(status, timed_out) {
            WaitAction::Finish(done) => return done,
            WaitAction::Retry => between(),
        }
    }
}

#[test]
fn wait_ends_with_the_timeout() {
    let completed_seq = Arc::new(AtomicU64::new(0));
    let mut pool = EventPool::new(completed_seq);
    let ev = pool.record(5, None);
    assert!(!wait(&pool, ev, Duration::from_millis(10), || {}));
    assert!(!wait(&pool, ev + 1, Duration::from_millis(10), || {}));
}

#[test]
fn wait_ends_with_the_event() {
    let completed_seq = Arc::new(AtomicU64::new(0));
    let mut pool = EventPool::new(completed_seq.clone());
    let ev = pool.record(2, None);
    let ok = wait(&pool, ev, Duration::from_secs(10), || {
        completed_seq.fetch_add(1, Ordering::SeqCst);
    });
    assert!(ok);
    assert_eq!(completed_seq.load(Ordering::SeqCst), 3);
}
