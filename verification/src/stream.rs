//! Streams: kernel launches that run in the order in which they were enqueued.
use std::collections::VecDeque;
use vstd::prelude::*;

use crate::config::{KernelConfig, KernelConfigView};

verus! {

/// Nanoseconds in a second.
pub const NANOS_PER_SEC: u64 = 1_000_000_000;

/// The throughput, in bytes per second, where none is given: 1 GiB/s.
pub const DEFAULT_THROUGHPUT_BPS: u64 = 1_073_741_824;

/// A kernel launch that waits in a stream.
#[derive(Debug)]
struct QueuedKernel {
    /// The sequence number given out for the launch.
    seq: u64,
    /// What is to be launched.
    config: KernelConfig,
    /// Bytes that the launch transfers.
    payload_size: u64,
}

/// A kernel launch that has run.
#[derive(Debug)]
pub struct CompletedKernel {
    /// The sequence number given out for the launch.
    pub seq: u64,
    /// What was launched.
    pub config: KernelConfig,
    /// How long it took, in nanoseconds.
    pub duration_nanos: u64,
}

/// A FIFO queue of kernel launches on a logical stream.
///
/// In a real GPU runtime, streams allow concurrent kernel execution.  Here we
/// simulate the ordering semantics: kernels are enqueued and "executed"
/// sequentially.  Each kernel records its simulated duration.
#[derive(Debug)]
pub struct StreamQueue {
    id: u32,
    queue: VecDeque<QueuedKernel>,
    completed: Vec<CompletedKernel>,
    next_seq: u64,
}

/// A kernel launch that waits in a stream, as a mathematical value.
#[verifier::ext_equal]
pub struct QueuedKernelView {
    pub seq: u64,
    pub config: KernelConfigView,
    pub payload_size: u64,
}

/// A [`CompletedKernel`] as a mathematical value.
#[verifier::ext_equal]
pub struct CompletedKernelView {
    pub seq: u64,
    pub config: KernelConfigView,
    pub duration_nanos: u64,
}

/// A [`StreamQueue`] as a mathematical value: the launches that wait, oldest
/// first, and those that have run, in the order in which they ran.
#[verifier::ext_equal]
pub struct StreamView {
    pub id: u32,
    pub next_seq: u64,
    pub pending: Seq<QueuedKernelView>,
    pub completed: Seq<CompletedKernelView>,
}

impl View for QueuedKernel {
    type V = QueuedKernelView;

    closed spec fn view(&self) -> QueuedKernelView {
        QueuedKernelView {
            seq: self.seq,
            config: self.config@,
            payload_size: self.payload_size,
        }
    }
}

impl View for CompletedKernel {
    type V = CompletedKernelView;

    open spec fn view(&self) -> CompletedKernelView {
        CompletedKernelView {
            seq: self.seq,
            config: self.config@,
            duration_nanos: self.duration_nanos,
        }
    }
}

impl View for StreamQueue {
    type V = StreamView;

    closed spec fn view(&self) -> StreamView {
        StreamView {
            id: self.id,
            next_seq: self.next_seq,
            pending: self.queue@.map_values(|k: QueuedKernel| k@),
            completed: self.completed@.map_values(|k: CompletedKernel| k@),
        }
    }
}

/// The sequence number of the launch at position `i`, the first being at zero:
/// its position, counted in 64 bits.
pub open spec fn seq_at(i: int) -> u64 {
    (i % (u64::MAX + 1)) as u64
}

/// The throughput that a simulation runs at: the given one, or the default
/// where it is zero.
pub open spec fn effective_throughput(throughput_bps: u64) -> u64 {
    if throughput_bps == 0 {
        DEFAULT_THROUGHPUT_BPS
    } else {
        throughput_bps
    }
}

/// The simulated time that a payload takes at the given throughput in bytes
/// per second: their quotient in whole nanoseconds, and at least one.
pub open spec fn estimated_nanos(payload_size: u64, throughput_bps: u64) -> int {
    let nanos = payload_size * NANOS_PER_SEC / (effective_throughput(throughput_bps) as int);
    if nanos < 1 {
        1
    } else {
        nanos
    }
}

/// The time that a payload takes is a 64-bit number of nanoseconds.
pub open spec fn can_estimate(payload_size: u64, throughput_bps: u64) -> bool {
    estimated_nanos(payload_size, throughput_bps) <= u64::MAX
}

impl QueuedKernelView {
    /// The launch once it has run.
    pub open spec fn run(self, throughput_bps: u64) -> CompletedKernelView {
        CompletedKernelView {
            seq: self.seq,
            config: self.config,
            duration_nanos: estimated_nanos(self.payload_size, throughput_bps) as u64,
        }
    }
}

impl StreamView {
    /// A stream on which nothing was launched.
    pub open spec fn fresh(id: u32) -> StreamView {
        StreamView { id, next_seq: 0, pending: Seq::empty(), completed: Seq::empty() }
    }

    /// The sequence numbers of the launches that have run, in order.
    pub open spec fn completed_seqs(self) -> Seq<u64> {
        self.completed.map_values(|k: CompletedKernelView| k.seq)
    }

    /// The sequence numbers of the launches that wait, oldest first.
    pub open spec fn pending_seqs(self) -> Seq<u64> {
        self.pending.map_values(|k: QueuedKernelView| k.seq)
    }

    /// The sequence numbers of all launches: those that have run, and behind
    /// them those that wait.
    pub open spec fn history(self) -> Seq<u64> {
        self.completed_seqs() + self.pending_seqs()
    }

    /// The invariant of a stream: launches are numbered in the order in which
    /// they were enqueued, without a gap, and the ones that have run are the
    /// oldest ones.
    pub open spec fn wf(self) -> bool {
        &&& forall|i: int|
            0 <= i < self.history().len() ==> #[trigger] self.history()[i] == seq_at(i)
        &&& self.next_seq == seq_at(self.history().len() as int)
    }

    /// Every launch that waits has a duration at the given throughput.
    pub open spec fn can_flush(self, throughput_bps: u64) -> bool {
        forall|i: int|
            0 <= i < self.pending.len() ==> can_estimate(
                #[trigger] self.pending[i].payload_size,
                throughput_bps,
            )
    }

    /// The stream with one more launch at the end of the queue.
    pub open spec fn enqueue(self, config: KernelConfigView, payload_size: u64) -> StreamView {
        StreamView {
            next_seq: self.next_seq.wrapping_add(1),
            pending: self.pending.push(
                QueuedKernelView { seq: self.next_seq, config, payload_size },
            ),
            ..self
        }
    }

    /// The stream after its oldest waiting launch, if there is one, has run.
    pub open spec fn step(self, throughput_bps: u64) -> StreamView {
        if self.pending.len() == 0 {
            self
        } else {
            StreamView {
                pending: self.pending.drop_first(),
                completed: self.completed.push(self.pending[0].run(throughput_bps)),
                ..self
            }
        }
    }

    /// The stream after all waiting launches have run.
    pub open spec fn flush(self, throughput_bps: u64) -> StreamView {
        StreamView {
            pending: Seq::empty(),
            completed: self.completed + self.pending.map_values(
                |k: QueuedKernelView| k.run(throughput_bps),
            ),
            ..self
        }
    }

    /// The stream after `n` steps.
    pub open spec fn steps(self, n: nat, throughput_bps: u64) -> StreamView
        decreases n,
    {
        if n == 0 {
            self
        } else {
            self.step(throughput_bps).steps((n - 1) as nat, throughput_bps)
        }
    }
}

/// The simulated time that a payload takes.
fn estimate_nanos(payload_size: u64, throughput_bps: u64) -> (r: u64)
    requires
        can_estimate(payload_size, throughput_bps),
    ensures
        r == estimated_nanos(payload_size, throughput_bps),
{
    let throughput: u64 = if throughput_bps == 0 {
        DEFAULT_THROUGHPUT_BPS
    } else {
        throughput_bps
    };
    let nanos: u128 = payload_size as u128 * NANOS_PER_SEC as u128 / throughput as u128;
    if nanos < 1 {
        1
    } else {
        nanos as u64
    }
}

impl StreamQueue {
    /// Create a new stream with the given ID.
    pub fn new(id: u32) -> (r: Self)
        ensures
            r@ == StreamView::fresh(id),
            r@.wf(),
    {
        StreamQueue { id, queue: VecDeque::new(), completed: Vec::new(), next_seq: 0 }
    }

    /// Stream identifier.
    pub fn id(&self) -> (r: u32)
        ensures
            r == self@.id,
    {
        self.id
    }

    /// Enqueue a kernel launch.
    ///
    /// Returns the sequence number assigned to this launch.
    pub fn enqueue(&mut self, config: KernelConfig, payload_size: u64) -> (r: u64)
        requires
            old(self)@.wf(),
        ensures
            r == old(self)@.next_seq,
            final(self)@ == old(self)@.enqueue(config@, payload_size),
            final(self)@.wf(),
    {
        let seq = self.next_seq;
        self.next_seq = seq.wrapping_add(1);
        self.queue.push_back(QueuedKernel { seq, config, payload_size });
        proof {
            assert(self@.pending =~= old(self)@.pending.push(self.queue@.last()@));
            law_enqueue_keeps_order(old(self)@, config@, payload_size);
        }
        seq
    }

    /// Number of kernels waiting in the queue.
    pub fn pending_count(&self) -> (r: usize)
        ensures
            r == self@.pending.len(),
    {
        self.queue.len()
    }

    /// Simulate executing the next kernel in the queue.
    ///
    /// Duration is estimated as `payload_size / throughput`, where throughput
    /// defaults to 1 GiB/s (simulated) if it is zero.  Returns the sequence
    /// number of the completed kernel, or `None` if the queue was empty.
    pub fn step(&mut self, throughput_bps: u64) -> (r: Option<u64>)
        requires
            old(self)@.wf(),
            old(self)@.pending.len() > 0 ==> can_estimate(
                old(self)@.pending[0].payload_size,
                throughput_bps,
            ),
        ensures
            r == (if old(self)@.pending.len() == 0 {
                None
            } else {
                Some(old(self)@.pending[0].seq)
            }),
            final(self)@ == old(self)@.step(throughput_bps),
            final(self)@.wf(),
    {
        let ghost before = self@;
        match self.queue.pop_front() {
            None => {
                None
            },
            Some(kernel) => {
                assert(before.pending[0] == kernel@);
                let duration_nanos = estimate_nanos(kernel.payload_size, throughput_bps);
                let seq = kernel.seq;
                self.completed.push(
                    CompletedKernel { seq, config: kernel.config, duration_nanos },
                );
                proof {
                    assert(self@.pending =~= before.pending.drop_first());
                    assert(self@.completed =~= before.completed.push(
                        before.pending[0].run(throughput_bps),
                    ));
                    law_step_keeps_order(before, throughput_bps);
                }
                Some(seq)
            },
        }
    }

    /// Drain all pending kernels (simulate full execution).
    ///
    /// Returns how many kernels ran.
    pub fn flush(&mut self, throughput_bps: u64) -> (r: usize)
        requires
            old(self)@.wf(),
            old(self)@.can_flush(throughput_bps),
        ensures
            r == old(self)@.pending.len(),
            final(self)@ == old(self)@.flush(throughput_bps),
            final(self)@.wf(),
    {
        let ghost before = self@;
        let total = self.queue.len();
        let mut count: usize = 0;
        proof {
            assert(self@.completed =~= before.completed + before.pending.take(0).map_values(
                |k: QueuedKernelView| k.run(throughput_bps),
            ));
        }
        loop
            invariant
                self@.wf(),
                before.can_flush(throughput_bps),
                count <= total,
                total == before.pending.len(),
                self@.id == before.id,
                self@.next_seq == before.next_seq,
                self@.pending == before.pending.skip(count as int),
                self@.completed == before.completed + before.pending.take(
                    count as int,
                ).map_values(|k: QueuedKernelView| k.run(throughput_bps)),
            ensures
                count == total,
                self@.wf(),
                self@.id == before.id,
                self@.next_seq == before.next_seq,
                self@.pending == before.pending.skip(count as int),
                self@.completed == before.completed + before.pending.take(
                    count as int,
                ).map_values(|k: QueuedKernelView| k.run(throughput_bps)),
            decreases total - count,
        {
            let ghost mid = self@;
            proof {
                if mid.pending.len() > 0 {
                    assert(mid.pending[0] == before.pending[count as int]);
                }
            }
            match self.step(throughput_bps) {
                None => {
                    break;
                },
                Some(_) => {
                    count = count + 1;
                    proof {
                        let run = |k: QueuedKernelView| k.run(throughput_bps);
                        assert(mid.pending.drop_first() =~= before.pending.skip(count as int));
                        assert(before.pending.take(count as int).map_values(run)
                            =~= before.pending.take(count - 1).map_values(run).push(
                            before.pending[count - 1].run(throughput_bps),
                        ));
                    }
                },
            }
        }
        proof {
            assert(before.pending.take(count as int) =~= before.pending);
            assert(before.pending.skip(count as int) =~= Seq::empty());
        }
        count
    }

    /// Number of completed kernels.
    pub fn completed_count(&self) -> (r: usize)
        ensures
            r == self@.completed.len(),
    {
        self.completed.len()
    }

    /// The completed kernels, in the order in which they ran.
    pub fn completed(&self) -> (r: &Vec<CompletedKernel>)
        ensures
            r@.map_values(|k: CompletedKernel| k@) == self@.completed,
            r@.len() == self@.completed.len(),
            forall|i: int|
                0 <= i < r@.len() ==> {
                    &&& (#[trigger] r@[i]).seq == self@.completed[i].seq
                    &&& r@[i].config@ == self@.completed[i].config
                    &&& r@[i].duration_nanos == self@.completed[i].duration_nanos
                },
    {
        &self.completed
    }

    /// Get the sequence numbers of completed kernels, in order.
    pub fn completed_seqs(&self) -> (r: Vec<u64>)
        ensures
            r@ == self@.completed_seqs(),
            r@.len() == self@.completed.len(),
            forall|i: int| 0 <= i < r@.len() ==> #[trigger] r@[i] == self@.completed[i].seq,
    {
        let mut r: Vec<u64> = Vec::new();
        let mut i: usize = 0;
        while i < self.completed.len()
            invariant
                i <= self.completed.len(),
                r@ == self@.completed_seqs().take(i as int),
            decreases self.completed.len() - i,
        {
            r.push(self.completed[i].seq);
            i = i + 1;
            assert(self@.completed_seqs().take(i as int) =~= self@.completed_seqs().take(
                i - 1,
            ).push(self@.completed_seqs()[i - 1]));
        }
        assert(self@.completed_seqs().take(i as int) =~= self@.completed_seqs());
        r
    }
}

/// A completed kernel's view has the kernel's own number, configuration and
/// duration.
pub proof fn law_completed_kernel_view(k: CompletedKernel)
    ensures
        k@.seq == k.seq,
        k@.config == k.config@,
        k@.duration_nanos == k.duration_nanos,
{
}

/// A new stream has its identifier, nothing on it, and zero as the number of
/// its first launch.
pub proof fn law_new_stream_is_empty(id: u32, r: StreamQueue)
    requires
        call_ensures(StreamQueue::new, (id,), r),
    ensures
        r@.id == id,
        r@.next_seq == 0,
        r@.pending.len() == 0,
        r@.completed.len() == 0,
{
}

/// What is listed of a stream is what is on it: the numbers of the completed
/// launches and of the waiting ones, each in its place.
pub proof fn law_listed_numbers(s: StreamView)
    ensures
        s.completed_seqs().len() == s.completed.len(),
        s.pending_seqs().len() == s.pending.len(),
        forall|i: int|
            0 <= i < s.completed.len() ==> #[trigger] s.completed_seqs()[i] == s.completed[i].seq,
        forall|i: int|
            0 <= i < s.pending.len() ==> #[trigger] s.pending_seqs()[i] == s.pending[i].seq,
        s.history().len() == s.completed.len() + s.pending.len(),
        forall|i: int|
            0 <= i < s.completed.len() ==> #[trigger] s.history()[i] == s.completed[i].seq,
        forall|i: int|
            s.completed.len() <= i < s.history().len() ==> #[trigger] s.history()[i]
                == s.pending[i - s.completed.len()].seq,
{
}

/// In an ordered stream of up to 2^64 launches, the launch enqueued at position
/// `i`, counted from zero, has the number `i`: the completed launches come
/// first, and the waiting ones behind them.
pub proof fn law_numbers_are_positions(s: StreamView)
    requires
        s.wf(),
        s.completed.len() + s.pending.len() <= 0x1_0000_0000_0000_0000,
    ensures
        forall|i: int| 0 <= i < s.completed.len() ==> (#[trigger] s.completed[i]).seq == i,
        forall|i: int|
            0 <= i < s.pending.len() ==> (#[trigger] s.pending[i]).seq == s.completed.len() + i,
        s.completed.len() + s.pending.len() < 0x1_0000_0000_0000_0000 ==> s.next_seq
            == s.completed.len() + s.pending.len(),
{
    law_listed_numbers(s);
    assert forall|i: int| 0 <= i < s.completed.len() implies (#[trigger] s.completed[i]).seq
        == i by {
        assert(s.history()[i] == seq_at(i));
        vstd::arithmetic::div_mod::lemma_small_mod(i as nat, (u64::MAX + 1) as nat);
    }
    assert forall|i: int| 0 <= i < s.pending.len() implies (#[trigger] s.pending[i]).seq
        == s.completed.len() + i by {
        let j = s.completed.len() + i;
        assert(s.history()[j] == seq_at(j));
        vstd::arithmetic::div_mod::lemma_small_mod(j as nat, (u64::MAX + 1) as nat);
    }
    if s.history().len() <= u64::MAX {
        vstd::arithmetic::div_mod::lemma_small_mod(s.history().len(), (u64::MAX + 1) as nat);
    }
}

/// What enqueueing does: the launch stands last, with its configuration and
/// payload, under the number that was next; the number after it is next now;
/// and all else is as before.
pub proof fn law_enqueue_result(s: StreamView, config: KernelConfigView, payload_size: u64)
    ensures
        ({
            let t = s.enqueue(config, payload_size);
            let n = s.pending.len() as int;
            &&& t.id == s.id
            &&& t.completed == s.completed
            &&& t.pending.len() == n + 1
            &&& t.pending[n].seq == s.next_seq
            &&& t.pending[n].config == config
            &&& t.pending[n].payload_size == payload_size
            &&& forall|i: int| 0 <= i < n ==> #[trigger] t.pending[i] == s.pending[i]
            &&& s.next_seq < 0xffff_ffff_ffff_ffff ==> t.next_seq == s.next_seq + 1
            &&& s.next_seq == 0xffff_ffff_ffff_ffff ==> t.next_seq == 0
        }),
{
}

/// What a duration is: the payload over the throughput in nanoseconds, rounded
/// down, but never less than one; a throughput of zero stands for 2^30 bytes
/// per second.
pub proof fn law_duration_is_payload_over_throughput(payload_size: u64, throughput_bps: u64)
    ensures
        ({
            let p = payload_size * 1_000_000_000;
            let t: int = if throughput_bps == 0 {
                1_073_741_824
            } else {
                throughput_bps as int
            };
            let d = estimated_nanos(payload_size, throughput_bps);
            &&& p >= t ==> d * t <= p < (d + 1) * t
            &&& p < t ==> d == 1
        }),
{
    let p = payload_size * 1_000_000_000;
    let t: int = if throughput_bps == 0 {
        1_073_741_824
    } else {
        throughput_bps as int
    };
    let q = p / t;
    vstd::arithmetic::div_mod::lemma_fundamental_div_mod(p, t);
    vstd::arithmetic::div_mod::lemma_mod_bound(p, t);
    assert(q * t == t * q) by (nonlinear_arith);
    assert((q + 1) * t == t * q + t) by (nonlinear_arith);
    if p >= t {
        assert(q >= 1) by (nonlinear_arith)
            requires
                p < t * q + t,
                p >= t,
                t > 0,
        ;
    } else {
        assert(q < 1) by (nonlinear_arith)
            requires
                t * q <= p,
                p < t,
                t > 0,
        ;
    }
}

/// A payload can be timed exactly if its duration is less than 2^64
/// nanoseconds.
pub proof fn law_what_can_be_timed(payload_size: u64, throughput_bps: u64)
    ensures
        can_estimate(payload_size, throughput_bps) <==> payload_size * 1_000_000_000
            < 0x1_0000_0000_0000_0000 * (if throughput_bps == 0 {
            1_073_741_824
        } else {
            throughput_bps as int
        }),
{
    law_duration_is_payload_over_throughput(payload_size, throughput_bps);
    let p = payload_size * 1_000_000_000;
    let t: int = if throughput_bps == 0 {
        1_073_741_824
    } else {
        throughput_bps as int
    };
    let d = estimated_nanos(payload_size, throughput_bps);
    if p >= t {
        if d <= 0xffff_ffff_ffff_ffff {
            assert((d + 1) * t <= 0x1_0000_0000_0000_0000 * t) by (nonlinear_arith)
                requires
                    d <= 0xffff_ffff_ffff_ffff,
                    0 < t,
            ;
        } else {
            assert(0x1_0000_0000_0000_0000 * t <= d * t) by (nonlinear_arith)
                requires
                    d >= 0x1_0000_0000_0000_0000,
                    0 < t,
            ;
        }
    }
}

/// What a step does: the oldest waiting launch leaves the queue and stands last
/// among the completed ones, as it was enqueued and with its duration; all else
/// is as before.  On an empty queue nothing changes.
pub proof fn law_step_result(s: StreamView, throughput_bps: u64)
    requires
        s.pending.len() > 0 ==> can_estimate(s.pending[0].payload_size, throughput_bps),
    ensures
        s.pending.len() == 0 ==> s.step(throughput_bps) == s,
        s.pending.len() > 0 ==> ({
            let t = s.step(throughput_bps);
            let n = s.completed.len() as int;
            let k = t.completed[n];
            let p = s.pending[0].payload_size * 1_000_000_000;
            let rate: int = if throughput_bps == 0 {
                1_073_741_824
            } else {
                throughput_bps as int
            };
            &&& t.id == s.id
            &&& t.next_seq == s.next_seq
            &&& t.pending.len() == s.pending.len() - 1
            &&& forall|i: int| 0 <= i < t.pending.len() ==> #[trigger] t.pending[i] == s.pending[i
                + 1]
            &&& t.completed.len() == n + 1
            &&& forall|i: int| 0 <= i < n ==> #[trigger] t.completed[i] == s.completed[i]
            &&& k.seq == s.pending[0].seq
            &&& k.config == s.pending[0].config
            &&& p >= rate ==> k.duration_nanos * rate <= p < (k.duration_nanos + 1) * rate
            &&& p < rate ==> k.duration_nanos == 1
        }),
{
    if s.pending.len() > 0 {
        law_duration_is_payload_over_throughput(s.pending[0].payload_size, throughput_bps);
    }
}

/// What a flush does: every waiting launch, in queue order, joins the completed
/// ones behind those that were there, as it was enqueued and with its duration;
/// nothing waits any more, and all else is as before.
pub proof fn law_flush_result(s: StreamView, throughput_bps: u64)
    requires
        s.can_flush(throughput_bps),
    ensures
        ({
            let t = s.flush(throughput_bps);
            let n = s.completed.len() as int;
            &&& t.id == s.id
            &&& t.next_seq == s.next_seq
            &&& t.pending.len() == 0
            &&& t.completed.len() == n + s.pending.len()
            &&& forall|i: int| 0 <= i < n ==> #[trigger] t.completed[i] == s.completed[i]
            &&& forall|i: int|
                0 <= i < s.pending.len() ==> {
                    let k = t.completed[n + i];
                    let p = s.pending[i].payload_size * 1_000_000_000;
                    let rate: int = if throughput_bps == 0 {
                        1_073_741_824
                    } else {
                        throughput_bps as int
                    };
                    &&& k.seq == (#[trigger] s.pending[i]).seq
                    &&& k.config == s.pending[i].config
                    &&& p >= rate ==> k.duration_nanos * rate <= p < (k.duration_nanos + 1) * rate
                    &&& p < rate ==> k.duration_nanos == 1
                }
        }),
{
    let t = s.flush(throughput_bps);
    let n = s.completed.len() as int;
    let rate: int = if throughput_bps == 0 {
        1_073_741_824
    } else {
        throughput_bps as int
    };
    assert forall|i: int| 0 <= i < s.pending.len() implies {
        let k = t.completed[n + i];
        let p = s.pending[i].payload_size * 1_000_000_000;
        &&& k.seq == (#[trigger] s.pending[i]).seq
        &&& k.config == s.pending[i].config
        &&& p >= rate ==> k.duration_nanos * rate <= p < (k.duration_nanos + 1) * rate
        &&& p < rate ==> k.duration_nanos == 1
    } by {
        let payload = s.pending[i].payload_size;
        assert(can_estimate(payload, throughput_bps));
        law_duration_is_payload_over_throughput(payload, throughput_bps);
        assert(t.completed[n + i] == s.pending[i].run(throughput_bps));
    }
}

/// A flush can be asked for exactly if every waiting launch can be timed.
pub proof fn law_what_can_be_flushed(s: StreamView, throughput_bps: u64)
    ensures
        s.can_flush(throughput_bps) <==> forall|i: int|
            0 <= i < s.pending.len() ==> (#[trigger] s.pending[i]).payload_size * 1_000_000_000
                < 0x1_0000_0000_0000_0000 * (if throughput_bps == 0 {
                1_073_741_824
            } else {
                throughput_bps as int
            }),
{
    assert forall|i: int| 0 <= i < s.pending.len() implies (can_estimate(
        #[trigger] s.pending[i].payload_size,
        throughput_bps,
    ) <==> s.pending[i].payload_size * 1_000_000_000 < 0x1_0000_0000_0000_0000 * (if throughput_bps
        == 0 {
        1_073_741_824
    } else {
        throughput_bps as int
    })) by {
        law_what_can_be_timed(s.pending[i].payload_size, throughput_bps);
    }
}

/// Enqueueing keeps the order of a stream: the new launch gets the next number
/// and stands behind all others.
pub proof fn law_enqueue_keeps_order(s: StreamView, config: KernelConfigView, payload_size: u64)
    requires
        s.wf(),
    ensures
        s.enqueue(config, payload_size).wf(),
        s.enqueue(config, payload_size).history() == s.history().push(s.next_seq),
{
    let t = s.enqueue(config, payload_size);
    assert(t.history() =~= s.history().push(s.next_seq));
    let n = s.history().len() as int;
    assert(seq_at(n).wrapping_add(1) == seq_at(n + 1)) by {
        vstd::arithmetic::div_mod::lemma_add_mod_noop(n, 1, u64::MAX + 1);
    }
}

/// A step keeps the order of a stream: it moves the oldest waiting launch to
/// the end of those that have run, and renumbers none.
pub proof fn law_step_keeps_order(s: StreamView, throughput_bps: u64)
    requires
        s.wf(),
    ensures
        s.step(throughput_bps).wf(),
        s.step(throughput_bps).history() == s.history(),
{
    assert(s.step(throughput_bps).history() =~= s.history());
}

/// Flushing completes the waiting launches first in, first out: their numbers
/// follow those of the launches that had run before, in queue order.
pub proof fn law_flush_is_fifo(s: StreamView, throughput_bps: u64)
    requires
        s.wf(),
    ensures
        s.flush(throughput_bps).wf(),
        s.flush(throughput_bps).completed_seqs() == s.completed_seqs() + s.pending_seqs(),
        s.flush(throughput_bps).history() == s.history(),
        s.flush(throughput_bps).pending.len() == 0,
{
    let t = s.flush(throughput_bps);
    assert(t.completed_seqs() =~= s.completed_seqs() + s.pending_seqs());
    assert(t.history() =~= s.history());
}

/// Flushing is stepping once for each waiting launch.
pub proof fn law_flush_is_repeated_step(s: StreamView, throughput_bps: u64)
    ensures
        s.steps(s.pending.len(), throughput_bps) == s.flush(throughput_bps),
    decreases s.pending.len(),
{
    let run = |k: QueuedKernelView| k.run(throughput_bps);
    if s.pending.len() == 0 {
        assert(s.pending =~= Seq::empty());
        assert(s.completed + s.pending.map_values(run) =~= s.completed);
    } else {
        let t = s.step(throughput_bps);
        law_flush_is_repeated_step(t, throughput_bps);
        assert(s.completed + s.pending.map_values(run) =~= t.completed + t.pending.map_values(
            run,
        ));
    }
}

/// What has run stays on record: stepping, flushing and enqueueing only ever
/// add to the completed launches, at the end.
pub proof fn law_completed_launches_stay(
    s: StreamView,
    config: KernelConfigView,
    payload_size: u64,
    throughput_bps: u64,
)
    ensures
        s.enqueue(config, payload_size).completed == s.completed,
        s.completed.is_prefix_of(s.step(throughput_bps).completed),
        s.completed.is_prefix_of(s.flush(throughput_bps).completed),
{
}

/// Enqueueing does not disturb the launch that runs next: while something
/// waits, it makes no difference whether a step is taken before or after.
pub proof fn law_enqueue_and_step_commute(
    s: StreamView,
    config: KernelConfigView,
    payload_size: u64,
    throughput_bps: u64,
)
    requires
        s.pending.len() > 0,
    ensures
        s.enqueue(config, payload_size).step(throughput_bps) == s.step(throughput_bps).enqueue(
            config,
            payload_size,
        ),
{
    assert(s.enqueue(config, payload_size).step(throughput_bps).pending =~= s.step(
        throughput_bps,
    ).enqueue(config, payload_size).pending);
}

/// A launch that is enqueued last completes last: flushing right behind it
/// does what flushing before it would have done, and runs it at the end.
pub proof fn law_last_enqueued_completes_last(
    s: StreamView,
    config: KernelConfigView,
    payload_size: u64,
    throughput_bps: u64,
)
    ensures
        s.enqueue(config, payload_size).flush(throughput_bps).completed == s.flush(
            throughput_bps,
        ).completed.push(
            (QueuedKernelView { seq: s.next_seq, config, payload_size }).run(throughput_bps),
        ),
{
    assert(s.enqueue(config, payload_size).flush(throughput_bps).completed =~= s.flush(
        throughput_bps,
    ).completed.push(
        (QueuedKernelView { seq: s.next_seq, config, payload_size }).run(throughput_bps),
    ));
}

/// As long as a stream has taken no more launches than there are sequence
/// numbers, later launches have greater numbers, and so no two launches share
/// one.
pub proof fn law_sequence_numbers_increase(s: StreamView, i: int, j: int)
    requires
        s.wf(),
        s.history().len() <= u64::MAX + 1,
        0 <= i < j < s.history().len(),
    ensures
        s.history()[i] < s.history()[j],
{
    vstd::arithmetic::div_mod::lemma_small_mod(i as nat, (u64::MAX + 1) as nat);
    vstd::arithmetic::div_mod::lemma_small_mod(j as nat, (u64::MAX + 1) as nat);
}

/// A kernel never takes less than a nanosecond, a larger payload never takes
/// less time, a greater throughput never takes more, and a throughput of zero
/// stands for the default.
pub proof fn law_duration_is_monotone(payload_size: u64, more: u64, throughput_bps: u64, faster: u64)
    requires
        payload_size <= more,
        effective_throughput(throughput_bps) <= effective_throughput(faster),
    ensures
        1 <= estimated_nanos(payload_size, throughput_bps),
        estimated_nanos(payload_size, throughput_bps) <= estimated_nanos(more, throughput_bps),
        estimated_nanos(payload_size, faster) <= estimated_nanos(payload_size, throughput_bps),
        estimated_nanos(payload_size, 0) == estimated_nanos(payload_size, DEFAULT_THROUGHPUT_BPS),
{
    let p = payload_size * NANOS_PER_SEC;
    vstd::arithmetic::div_mod::lemma_div_is_ordered(
        p,
        more * NANOS_PER_SEC,
        effective_throughput(throughput_bps) as int,
    );
    vstd::arithmetic::div_mod::lemma_div_is_ordered_by_denominator(
        p,
        effective_throughput(throughput_bps) as int,
        effective_throughput(faster) as int,
    );
}

/// A call of `enqueue` returns the number that was next, and puts the launch
/// under that number at the end of the queue, with its configuration and
/// payload; nothing else on the stream changes.
pub proof fn law_enqueue(s: &mut StreamQueue, config: KernelConfig, payload_size: u64, r: u64)
    requires
        call_ensures(StreamQueue::enqueue, (s, config, payload_size), r),
    ensures
        ({
            let before = old(s)@;
            let after = final(s)@;
            let n = before.pending.len() as int;
            &&& r == before.next_seq
            &&& after.id == before.id
            &&& after.completed == before.completed
            &&& after.pending.len() == n + 1
            &&& after.pending[n].seq == r
            &&& after.pending[n].config == config@
            &&& after.pending[n].payload_size == payload_size
            &&& forall|i: int| 0 <= i < n ==> #[trigger] after.pending[i] == before.pending[i]
            &&& r < 0xffff_ffff_ffff_ffff ==> after.next_seq == r + 1
            &&& r == 0xffff_ffff_ffff_ffff ==> after.next_seq == 0
        }),
{
    law_enqueue_result(old(s)@, config@, payload_size);
}

/// A call of `step` returns the number of the launch that had waited longest,
/// and moves that launch to the end of the completed ones, as it was enqueued
/// and with its payload over the throughput as its duration; without a waiting
/// launch it returns nothing and changes nothing.
pub proof fn law_step(s: &mut StreamQueue, throughput_bps: u64, r: Option<u64>)
    requires
        old(s)@.pending.len() > 0 ==> can_estimate(
            old(s)@.pending[0].payload_size,
            throughput_bps,
        ),
        call_ensures(StreamQueue::step, (s, throughput_bps), r),
    ensures
        old(s)@.pending.len() == 0 ==> r is None && final(s)@ == old(s)@,
        old(s)@.pending.len() > 0 ==> ({
            let before = old(s)@;
            let after = final(s)@;
            let n = before.completed.len() as int;
            let k = after.completed[n];
            let p = before.pending[0].payload_size * 1_000_000_000;
            let rate: int = if throughput_bps == 0 {
                1_073_741_824
            } else {
                throughput_bps as int
            };
            &&& r == Some(before.pending[0].seq)
            &&& after.id == before.id
            &&& after.next_seq == before.next_seq
            &&& after.pending.len() == before.pending.len() - 1
            &&& forall|i: int|
                0 <= i < after.pending.len() ==> #[trigger] after.pending[i] == before.pending[i
                    + 1]
            &&& after.completed.len() == n + 1
            &&& forall|i: int| 0 <= i < n ==> #[trigger] after.completed[i] == before.completed[i]
            &&& r == Some(k.seq)
            &&& k.config == before.pending[0].config
            &&& p >= rate ==> k.duration_nanos * rate <= p < (k.duration_nanos + 1) * rate
            &&& p < rate ==> k.duration_nanos == 1
        }),
{
    law_step_result(old(s)@, throughput_bps);
}

/// A call of `flush` returns how many launches waited, and moves them all, in
/// queue order, behind the completed ones, as they were enqueued and each with
/// its payload over the throughput as its duration.
pub proof fn law_flush(s: &mut StreamQueue, throughput_bps: u64, r: usize)
    requires
        old(s)@.can_flush(throughput_bps),
        call_ensures(StreamQueue::flush, (s, throughput_bps), r),
    ensures
        ({
            let before = old(s)@;
            let after = final(s)@;
            let n = before.completed.len() as int;
            &&& r == before.pending.len()
            &&& after.id == before.id
            &&& after.next_seq == before.next_seq
            &&& after.pending.len() == 0
            &&& after.completed.len() == n + r
            &&& forall|i: int| 0 <= i < n ==> #[trigger] after.completed[i] == before.completed[i]
            &&& forall|i: int|
                0 <= i < r ==> {
                    let k = after.completed[n + i];
                    let p = before.pending[i].payload_size * 1_000_000_000;
                    let rate: int = if throughput_bps == 0 {
                        1_073_741_824
                    } else {
                        throughput_bps as int
                    };
                    &&& k.seq == (#[trigger] before.pending[i]).seq
                    &&& k.config == before.pending[i].config
                    &&& p >= rate ==> k.duration_nanos * rate <= p < (k.duration_nanos + 1) * rate
                    &&& p < rate ==> k.duration_nanos == 1
                }
        }),
{
    law_flush_result(old(s)@, throughput_bps);
}

/// What a stream reports: its identifier, how many launches wait and have
/// completed, and the completed launches with their numbers.
pub proof fn law_reports(
    s: StreamQueue,
    id: u32,
    pending: usize,
    completed: usize,
    seqs: Vec<u64>,
    kernels: &Vec<CompletedKernel>,
)
    requires
        call_ensures(StreamQueue::id, (&s,), id),
        call_ensures(StreamQueue::pending_count, (&s,), pending),
        call_ensures(StreamQueue::completed_count, (&s,), completed),
        call_ensures(StreamQueue::completed_seqs, (&s,), seqs),
        call_ensures(StreamQueue::completed, (&s,), kernels),
    ensures
        id == s@.id,
        pending == s@.pending.len(),
        completed == s@.completed.len(),
        seqs@.len() == completed,
        kernels@.len() == completed,
        forall|i: int|
            0 <= i < completed ==> {
                &&& (#[trigger] kernels@[i]).seq == seqs@[i]
                &&& seqs@[i] == s@.completed[i].seq
                &&& kernels@[i].config@ == s@.completed[i].config
                &&& kernels@[i].duration_nanos == s@.completed[i].duration_nanos
            },
{
}

} // verus!
