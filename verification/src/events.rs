//! Completion events: marks in a stream's progress that can be asked about
//! later.
use std::sync::atomic::{AtomicU64, Ordering};
use std::sync::Arc;
use vstd::prelude::*;

use crate::stream::StreamView;

verus! {

/// A mark at one sequence number of a stream.
#[derive(Debug)]
pub struct Event {
    /// The event's identifier in its pool.
    pub id: u64,
    /// The sequence number of the last kernel that the event waits for.
    pub recorded_seq: u64,
    /// Optional symbolic name for the event.
    pub name: Option<String>,
}

/// A pool of completion events for tracking kernel progress.
///
/// Events are lightweight markers.  Recording an event snapshots the current
/// stream sequence number.  Querying an event tells you whether all kernels
/// up to that point have completed.
///
/// How far the stream has come is read from a counter that the pool shares
/// with whoever runs the kernels: the number of kernels that have completed.
#[derive(Debug)]
pub struct EventPool {
    events: Vec<Event>,
    next_id: u64,
    stream_completed_seq: Arc<AtomicU64>,
}

/// An [`Event`] as a mathematical value.
#[verifier::ext_equal]
pub struct EventView {
    pub id: u64,
    pub recorded_seq: u64,
    pub name: Option<Seq<char>>,
}

/// An [`EventPool`] as a mathematical value.  The shared counter is no part of
/// it: it changes without the pool.
#[verifier::ext_equal]
pub struct EventPoolView {
    pub next_id: u64,
    pub events: Seq<EventView>,
}

/// What to do next while waiting for an event.
#[derive(Debug, Clone, Copy, PartialEq, Eq, Structural)]
pub enum WaitAction {
    /// Stop waiting and report whether the event completed.
    Finish(bool),
    /// Let others run and look again.
    Retry,
}

impl View for Event {
    type V = EventView;

    open spec fn view(&self) -> EventView {
        EventView {
            id: self.id,
            recorded_seq: self.recorded_seq,
            name: crate::config::name_view(self.name),
        }
    }
}

impl View for EventPool {
    type V = EventPoolView;

    closed spec fn view(&self) -> EventPoolView {
        EventPoolView {
            next_id: self.next_id,
            events: self.events@.map_values(|e: Event| e@),
        }
    }
}

impl EventView {
    /// Whether all kernels up to the event have completed, once `done_seq`
    /// kernels have.
    pub open spec fn reached_by(self, done_seq: u64) -> bool {
        done_seq > self.recorded_seq
    }
}

impl EventPoolView {
    /// A pool without events.
    pub open spec fn empty() -> EventPoolView {
        EventPoolView { next_id: 0, events: Seq::empty() }
    }

    /// The invariant of a pool: events are numbered from zero in the order in
    /// which they were recorded.
    pub open spec fn wf(self) -> bool {
        &&& self.next_id == self.events.len()
        &&& forall|i: int| 0 <= i < self.events.len() ==> #[trigger] self.events[i].id == i
    }

    /// The pool with one more event.
    pub open spec fn record(self, seq: u64, name: Option<Seq<char>>) -> EventPoolView {
        EventPoolView {
            next_id: (self.next_id + 1) as u64,
            events: self.events.push(EventView { id: self.next_id, recorded_seq: seq, name }),
        }
    }

    /// The event with the given identifier.
    pub open spec fn lookup(self, event_id: u64) -> Option<EventView> {
        if event_id < self.events.len() {
            Some(self.events[event_id as int])
        } else {
            None
        }
    }

    /// What a query for an event answers once `done_seq` kernels have
    /// completed: nothing for an unknown event, else whether it was reached.
    pub open spec fn completed_at(self, event_id: u64, done_seq: u64) -> Option<bool> {
        match self.lookup(event_id) {
            Some(e) => Some(e.reached_by(done_seq)),
            None => None,
        }
    }
}

/// The decision of one round of waiting.
pub open spec fn wait_action(status: Option<bool>, timed_out: bool) -> WaitAction {
    if status == Some(true) {
        WaitAction::Finish(true)
    } else if timed_out {
        WaitAction::Finish(false)
    } else {
        WaitAction::Retry
    }
}

/// What waiting returns if its rounds observe `rounds`, each the answer to the
/// query and whether the deadline had passed by then; `None` if it still
/// waits.
pub open spec fn wait_result(rounds: Seq<(Option<bool>, bool)>) -> Option<bool>
    decreases rounds.len(),
{
    if rounds.len() == 0 {
        None
    } else {
        match wait_action(rounds[0].0, rounds[0].1) {
            WaitAction::Finish(done) => Some(done),
            WaitAction::Retry => wait_result(rounds.drop_first()),
        }
    }
}

impl EventPool {
    /// The counter that tells how many kernels have completed.
    pub closed spec fn counter(self) -> Arc<AtomicU64> {
        self.stream_completed_seq
    }

    /// Create a new event pool, tracking a stream's completed sequence.
    pub fn new(stream_completed_seq: Arc<AtomicU64>) -> (r: Self)
        ensures
            r@ == EventPoolView::empty(),
            r@.wf(),
            r.counter() == stream_completed_seq,
    {
        EventPool { events: Vec::new(), next_id: 0, stream_completed_seq }
    }

    /// Record a new event at the given stream sequence number.
    ///
    /// Returns the event's identifier.
    pub fn record(&mut self, seq: u64, name: Option<String>) -> (r: u64)
        requires
            old(self)@.wf(),
        ensures
            r == old(self)@.next_id,
            final(self)@ == old(self)@.record(seq, crate::config::name_view(name)),
            final(self)@.wf(),
            final(self).counter() == old(self).counter(),
    {
        let ghost before = self@;
        let id = self.next_id;
        self.events.push(Event { id, recorded_seq: seq, name });
        assert(self.events.len() == before.events.len() + 1);
        self.next_id = id + 1;
        proof {
            assert(self@.events =~= before.record(seq, crate::config::name_view(name)).events);
        }
        id
    }

    /// The event with the given identifier.
    pub fn find(&self, event_id: u64) -> (r: Option<&Event>)
        requires
            self@.wf(),
        ensures
            match self@.lookup(event_id) {
                Some(e) => r matches Some(ev) && ev@ == e,
                None => r is None,
            },
            r is Some <==> event_id < self@.events.len(),
            r matches Some(ev) ==> ev.id == event_id && ev@ == self@.events[event_id as int],
    {
        let mut i: usize = 0;
        while i < self.events.len()
            invariant
                self@.wf(),
                i <= self.events.len(),
                i <= event_id,
            decreases self.events.len() - i,
        {
            assert(self@.events[i as int].id == i);
            if self.events[i].id == event_id {
                return Some(&self.events[i]);
            }
            i = i + 1;
        }
        None
    }

    /// Check whether all kernels up to event `event_id` have completed, given
    /// that the first `done_seq` kernels of the stream have.
    pub fn is_completed_at(&self, event_id: u64, done_seq: u64) -> (r: Option<bool>)
        requires
            self@.wf(),
        ensures
            r == self@.completed_at(event_id, done_seq),
            r is Some <==> event_id < self@.events.len(),
            r matches Some(done) ==> done == (done_seq > self@.events[event_id as int].recorded_seq),
    {
        match self.find(event_id) {
            Some(ev) => Some(done_seq > ev.recorded_seq),
            None => None,
        }
    }

    /// Check whether all kernels up to event `event_id` have completed.
    ///
    /// The answer is that of [`EventPool::is_completed_at`] for the value that
    /// the shared counter has at the moment of the call.  That value rests with
    /// whoever runs the kernels: the contract says that it is loaded from the
    /// counter, not what it is.
    pub fn is_completed(&self, event_id: u64) -> (r: Option<bool>)
        requires
            self@.wf(),
        ensures
            r is Some <==> self@.lookup(event_id) is Some,
            exists|done_seq: u64|
                call_ensures(AtomicU64::load, (&*self.counter(), Ordering::SeqCst), done_seq) && r
                    == #[trigger] self@.completed_at(event_id, done_seq),
    {
        let done_seq = self.stream_completed_seq.load(Ordering::SeqCst);
        self.is_completed_at(event_id, done_seq)
    }

    /// One round of waiting for an event: given the answer to a query for it
    /// and whether the deadline has passed, stop or look again.
    pub fn wait_step(status: Option<bool>, timed_out: bool) -> (r: WaitAction)
        ensures
            r == wait_action(status, timed_out),
    {
        match status {
            Some(true) => WaitAction::Finish(true),
            Some(false) | None => {
                if timed_out {
                    WaitAction::Finish(false)
                } else {
                    WaitAction::Retry
                }
            },
        }
    }

    /// Number of events in the pool.
    pub fn len(&self) -> (r: usize)
        ensures
            r == self@.events.len(),
    {
        self.events.len()
    }

    /// Is the pool empty?
    pub fn is_empty(&self) -> (r: bool)
        ensures
            r == (self@.events.len() == 0),
    {
        self.len() == 0
    }
}

/// An event's view has the event's own number and sequence number, and its name
/// is there exactly if the event has one, character by character.
pub proof fn law_event_view(e: Event)
    ensures
        e@.id == e.id,
        e@.recorded_seq == e.recorded_seq,
        e.name is None <==> e@.name is None,
        e.name matches Some(s) ==> e@.name == Some(s@),
{
}

/// A new pool has no events, reads the counter that it was given, and gives
/// out zero as its first identifier.
pub proof fn law_new_pool_is_empty(counter: Arc<AtomicU64>, r: EventPool)
    requires
        call_ensures(EventPool::new, (counter,), r),
    ensures
        r@.next_id == 0,
        r@.events.len() == 0,
        r.counter() == counter,
{
}

/// What recording does: the event stands last, under the identifier that was
/// next, with its sequence number and name; the identifier after it is next
/// now; and every earlier event is as before.
pub proof fn law_record_result(pool: EventPoolView, seq: u64, name: Option<Seq<char>>)
    requires
        pool.next_id < u64::MAX,
    ensures
        ({
            let after = pool.record(seq, name);
            let n = pool.events.len() as int;
            &&& after.next_id == pool.next_id + 1
            &&& after.events.len() == n + 1
            &&& after.events[n].id == pool.next_id
            &&& after.events[n].recorded_seq == seq
            &&& after.events[n].name == name
            &&& forall|i: int| 0 <= i < n ==> #[trigger] after.events[i] == pool.events[i]
        }),
{
}

/// Events are numbered from zero in the order in which they were recorded, so
/// an identifier is an event's place in its pool.
pub proof fn law_ids_are_positions(pool: EventPoolView)
    requires
        pool.wf(),
    ensures
        pool.next_id == pool.events.len(),
        forall|i: int| 0 <= i < pool.events.len() ==> (#[trigger] pool.events[i]).id == i,
        forall|id: u64|
            #![trigger pool.lookup(id)]
            match pool.lookup(id) {
                Some(e) => id < pool.events.len() && e == pool.events[id as int],
                None => id >= pool.events.len(),
            },
{
}

/// What a query answers with the counter at `done_seq`: nothing for an
/// identifier that no event has, and for an event recorded at sequence number
/// `q` whether the counter is past `q`.
pub proof fn law_query_answer(pool: EventPool, event_id: u64, done_seq: u64, r: Option<bool>)
    requires
        pool@.wf(),
        call_ensures(EventPool::is_completed_at, (&pool, event_id, done_seq), r),
    ensures
        r is None <==> forall|i: int|
            0 <= i < pool@.events.len() ==> (#[trigger] pool@.events[i]).id != event_id,
        forall|i: int|
            0 <= i < pool@.events.len() && (#[trigger] pool@.events[i]).id == event_id ==> {
                &&& done_seq > pool@.events[i].recorded_seq ==> r == Some(true)
                &&& done_seq <= pool@.events[i].recorded_seq ==> r == Some(false)
            },
{
    if event_id < pool@.events.len() {
        assert(pool@.events[event_id as int].id == event_id);
    }
}

/// The answers of the model are those of a query: past the recorded sequence
/// number or not, and none without an event.
pub proof fn law_model_answer(pool: EventPoolView, event_id: u64, done_seq: u64)
    requires
        pool.wf(),
    ensures
        pool.completed_at(event_id, done_seq) is None <==> forall|i: int|
            0 <= i < pool.events.len() ==> (#[trigger] pool.events[i]).id != event_id,
        forall|i: int|
            0 <= i < pool.events.len() && (#[trigger] pool.events[i]).id == event_id ==> {
                &&& done_seq > pool.events[i].recorded_seq ==> pool.completed_at(
                    event_id,
                    done_seq,
                ) == Some(true)
                &&& done_seq <= pool.events[i].recorded_seq ==> pool.completed_at(
                    event_id,
                    done_seq,
                ) == Some(false)
            },
{
    if event_id < pool.events.len() {
        assert(pool.events[event_id as int].id == event_id);
    }
}

/// A query that reads the counter answers for a value that the counter had:
/// true if that value is past the event's sequence number, false if it is not,
/// and nothing without an event.
pub proof fn law_query_reads_counter(pool: EventPool, event_id: u64, r: Option<bool>)
    requires
        pool@.wf(),
        call_ensures(EventPool::is_completed, (&pool, event_id), r),
    ensures
        r is None <==> forall|i: int|
            0 <= i < pool@.events.len() ==> (#[trigger] pool@.events[i]).id != event_id,
        exists|done_seq: u64| #[trigger]
            call_ensures(AtomicU64::load, (&*pool.counter(), Ordering::SeqCst), done_seq)
                && forall|i: int|
                0 <= i < pool@.events.len() && (#[trigger] pool@.events[i]).id == event_id ==> r
                    == Some(done_seq > pool@.events[i].recorded_seq),
{
    let done_seq = choose|done_seq: u64|
        call_ensures(AtomicU64::load, (&*pool.counter(), Ordering::SeqCst), done_seq) && r
            == #[trigger] pool@.completed_at(event_id, done_seq);
    assert(call_ensures(AtomicU64::load, (&*pool.counter(), Ordering::SeqCst), done_seq));
    law_model_answer(pool@, event_id, done_seq);
}

/// Record, and query later: the identifier that was given out answers whether
/// the counter is past the recorded sequence number, and every other
/// identifier answers as if nothing had been recorded.
pub proof fn law_record_and_query(
    pool: EventPoolView,
    seq: u64,
    name: Option<Seq<char>>,
    other: u64,
    done_seq: u64,
)
    requires
        pool.wf(),
        pool.next_id < u64::MAX,
    ensures
        done_seq > seq ==> pool.record(seq, name).completed_at(pool.next_id, done_seq) == Some(
            true,
        ),
        done_seq <= seq ==> pool.record(seq, name).completed_at(pool.next_id, done_seq) == Some(
            false,
        ),
        other != pool.next_id ==> pool.record(seq, name).completed_at(other, done_seq)
            == pool.completed_at(other, done_seq),
{
}

/// The answer to a query is about the stream: with the counter at the number of
/// kernels that the stream has completed, an event recorded at sequence number
/// `q` is answered with true if the kernels numbered up to `q` have all run, and
/// with false if one of them has not.
pub proof fn law_query_tracks_stream(
    pool: EventPool,
    event_id: u64,
    s: StreamView,
    r: Option<bool>,
)
    requires
        pool@.wf(),
        s.wf(),
        s.completed.len() <= u64::MAX,
        event_id < pool@.events.len(),
        call_ensures(
            EventPool::is_completed_at,
            (&pool, event_id, s.completed.len() as u64),
            r,
        ),
    ensures
        r is Some,
        r == Some(true) <==> forall|k: u64|
            k <= pool@.events[event_id as int].recorded_seq
                ==> #[trigger] s.completed_seqs().contains(k),
{
    law_query_answer(pool, event_id, s.completed.len() as u64, r);
    assert(pool@.events[event_id as int].id == event_id);
    law_event_tracks_stream(s, pool@.events[event_id as int]);
}

/// One round of waiting: a completed event ends it with success at once,
/// whatever the clock says; else the deadline ends it without; else it goes on.
pub proof fn law_wait_step(status: Option<bool>, timed_out: bool, r: WaitAction)
    requires
        call_ensures(EventPool::wait_step, (status, timed_out), r),
    ensures
        r == WaitAction::Finish(true) <==> status == Some(true),
        r == WaitAction::Finish(false) <==> status != Some(true) && timed_out,
        r == WaitAction::Retry <==> status != Some(true) && !timed_out,
        r == wait_action(status, timed_out),
{
}

/// Recording an event keeps the pool's numbering: the new event is found under
/// the identifier that was given out, and every earlier event stays as it was.
pub proof fn law_record_adds_one_event(
    pool: EventPoolView,
    seq: u64,
    name: Option<Seq<char>>,
    other: u64,
)
    requires
        pool.wf(),
        pool.next_id < u64::MAX,
    ensures
        pool.record(seq, name).wf(),
        pool.lookup(pool.next_id) is None,
        pool.record(seq, name).lookup(pool.next_id) == Some(
            (EventView { id: pool.next_id, recorded_seq: seq, name }),
        ),
        other != pool.next_id ==> pool.record(seq, name).lookup(other) == pool.lookup(other),
{
}

/// Two events of a pool never share an identifier.
pub proof fn law_event_ids_are_unique(pool: EventPoolView, i: int, j: int)
    requires
        pool.wf(),
        0 <= i < pool.events.len(),
        0 <= j < pool.events.len(),
        pool.events[i].id == pool.events[j].id,
    ensures
        i == j,
{
}

/// An event is unknown to a query exactly if it was never recorded.
pub proof fn law_only_recorded_events_are_known(pool: EventPoolView, event_id: u64, done_seq: u64)
    requires
        pool.wf(),
    ensures
        pool.completed_at(event_id, done_seq) is Some <==> exists|i: int|
            0 <= i < pool.events.len() && (#[trigger] pool.events[i]).id == event_id,
{
    if pool.completed_at(event_id, done_seq) is Some {
        assert(pool.events[event_id as int].id == event_id);
    }
}

/// A completed event stays completed while the stream advances, and with it
/// every event that was recorded at the same or an earlier sequence number.
pub proof fn law_completion_is_monotone(
    earlier: EventView,
    later: EventView,
    done_seq: u64,
    more_done: u64,
)
    requires
        earlier.recorded_seq <= later.recorded_seq,
        done_seq <= more_done,
        later.reached_by(done_seq),
    ensures
        later.reached_by(more_done),
        earlier.reached_by(done_seq),
{
}

/// Waiting reports success exactly if some round sees the event completed and
/// no round before it ran into the deadline.
pub proof fn law_wait_succeeds_iff_seen_in_time(rounds: Seq<(Option<bool>, bool)>)
    ensures
        wait_result(rounds) == Some(true) <==> exists|k: int|
            0 <= k < rounds.len() && (#[trigger] rounds[k]).0 == Some(true) && forall|j: int|
                0 <= j < k ==> !(#[trigger] rounds[j]).1,
    decreases rounds.len(),
{
    if rounds.len() > 0 {
        let rest = rounds.drop_first();
        law_wait_succeeds_iff_seen_in_time(rest);
        if wait_action(rounds[0].0, rounds[0].1) == WaitAction::Retry {
            if wait_result(rest) == Some(true) {
                let k = choose|k: int|
                    0 <= k < rest.len() && (#[trigger] rest[k]).0 == Some(true) && forall|j: int|
                        0 <= j < k ==> !(#[trigger] rest[j]).1;
                assert(rounds[k + 1].0 == Some(true));
                assert forall|j: int| 0 <= j < k + 1 implies !(#[trigger] rounds[j]).1 by {
                    if j > 0 {
                        assert(rest[j - 1] == rounds[j]);
                    }
                }
            }
            if exists|k: int|
                0 <= k < rounds.len() && (#[trigger] rounds[k]).0 == Some(true) && forall|j: int|
                    0 <= j < k ==> !(#[trigger] rounds[j]).1 {
                let k = choose|k: int|
                    0 <= k < rounds.len() && (#[trigger] rounds[k]).0 == Some(true) && forall|
                        j: int,
                    |
                        0 <= j < k ==> !(#[trigger] rounds[j]).1;
                assert(rest[k - 1].0 == Some(true));
            }
        }
    }
}

/// Waiting goes on exactly as long as no round saw the event completed or the
/// deadline passed.
pub proof fn law_wait_ends_by_the_deadline(rounds: Seq<(Option<bool>, bool)>)
    ensures
        wait_result(rounds) is None <==> forall|k: int|
            0 <= k < rounds.len() ==> (#[trigger] rounds[k]).0 != Some(true) && !rounds[k].1,
    decreases rounds.len(),
{
    if rounds.len() > 0 {
        let rest = rounds.drop_first();
        law_wait_ends_by_the_deadline(rest);
        if wait_result(rounds) is None {
            assert forall|k: int| 0 <= k < rounds.len() implies (#[trigger] rounds[k]).0 != Some(
                true,
            ) && !rounds[k].1 by {
                if k > 0 {
                    assert(rest[k - 1] == rounds[k]);
                }
            }
        } else if wait_action(rounds[0].0, rounds[0].1) == WaitAction::Retry {
            let k = choose|k: int|
                0 <= k < rest.len() && !((#[trigger] rest[k]).0 != Some(true) && !rest[k].1);
            assert(rounds[k + 1] == rest[k]);
        }
    }
}

/// As long as the completed kernels can be counted in 64 bits, the launch that
/// runs next is numbered by how many ran before it.  So the number that a step
/// returns, plus one, is what the shared counter has to show behind that step,
/// and it is that step by which an event recorded at the launch completes.
pub proof fn law_step_completes_its_event(s: StreamView, throughput_bps: u64, event: EventView)
    requires
        s.wf(),
        s.pending.len() > 0,
        s.completed.len() < u64::MAX,
        event.recorded_seq == s.pending[0].seq,
    ensures
        s.step(throughput_bps).completed.len() == s.pending[0].seq + 1,
        !event.reached_by(s.completed.len() as u64),
        event.reached_by(s.step(throughput_bps).completed.len() as u64),
{
    let n = s.completed.len();
    assert(s.history()[n as int] == s.pending[0].seq);
    vstd::arithmetic::div_mod::lemma_small_mod(n, (u64::MAX + 1) as nat);
}

/// A query answers what it is meant to answer: with the counter at the number
/// of kernels that a stream has completed, an event counts as completed exactly
/// if every kernel up to the recorded sequence number has run on the stream.
pub proof fn law_event_tracks_stream(s: StreamView, event: EventView)
    requires
        s.wf(),
        s.completed.len() <= u64::MAX,
    ensures
        event.reached_by(s.completed.len() as u64) <==> forall|k: u64|
            k <= event.recorded_seq ==> #[trigger] s.completed_seqs().contains(k),
{
    let n = s.completed.len();
    let done = s.completed_seqs();
    assert forall|i: int| 0 <= i < n implies #[trigger] done[i] == i by {
        assert(s.history()[i] == done[i]);
        vstd::arithmetic::div_mod::lemma_small_mod(i as nat, (u64::MAX + 1) as nat);
    }
    if event.reached_by(n as u64) {
        assert forall|k: u64| k <= event.recorded_seq implies #[trigger] done.contains(k) by {
            assert(done[k as int] == k);
        }
    } else if done.contains(event.recorded_seq) {
        let i = choose|i: int| 0 <= i < done.len() && done[i] == event.recorded_seq;
        assert(done[i] == i);
    }
}

/// A call of `record` returns the identifier that was next, and puts the event
/// under it at the end of the pool, with its sequence number and name; every
/// earlier event and the counter stay.
pub proof fn law_record(pool: &mut EventPool, seq: u64, name: Option<String>, r: u64)
    requires
        old(pool)@.wf(),
        call_ensures(EventPool::record, (pool, seq, name), r),
    ensures
        ({
            let before = old(pool)@;
            let after = final(pool)@;
            let n = before.events.len() as int;
            &&& r == n
            &&& after.next_id == r + 1
            &&& after.events.len() == n + 1
            &&& after.events[n].id == r
            &&& after.events[n].recorded_seq == seq
            &&& name is None <==> after.events[n].name is None
            &&& name matches Some(text) ==> after.events[n].name == Some(text@)
            &&& forall|i: int| 0 <= i < n ==> #[trigger] after.events[i] == before.events[i]
        }),
        final(pool).counter() == old(pool).counter(),
{
}

/// What a pool reports: the number of its events, whether there is none, and
/// an event by its identifier.
pub proof fn law_pool_reports(
    pool: EventPool,
    event_id: u64,
    len: usize,
    empty: bool,
    found: Option<&Event>,
)
    requires
        pool@.wf(),
        call_ensures(EventPool::len, (&pool,), len),
        call_ensures(EventPool::is_empty, (&pool,), empty),
        call_ensures(EventPool::find, (&pool, event_id), found),
    ensures
        len == pool@.events.len(),
        empty <==> len == 0,
        found is Some <==> event_id < len,
        found matches Some(e) ==> {
            &&& e.id == event_id
            &&& e.recorded_seq == pool@.events[event_id as int].recorded_seq
            &&& e@.name == pool@.events[event_id as int].name
        },
{
}

} // verus!
