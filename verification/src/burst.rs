//! Burst sending: the messages of a secondary panel are sent one by one, a
//! few seconds apart, by a worker that the caller runs; this module holds the
//! flag shared with that worker and the decisions the worker makes.

use std::sync::Arc;
use std::sync::atomic::{AtomicBool, Ordering};
use vstd::prelude::*;

verus! {

/// Another handle on the same shared flag.
///
/// Trusted: calls `Arc::clone`, documented to make a new pointer to the same
/// allocation, so the result points at the same flag.
#[verifier::external_body]
fn share_flag(flag: &Arc<AtomicBool>) -> (r: Arc<AtomicBool>)
    ensures
        r == *flag,
{
    Arc::clone(flag)
}

/// Burst controller. The running flag is shared with the burst worker, which
/// clears it when it has sent everything; what it holds at a given moment
/// therefore depends on that worker and is not stated by these contracts.
/// What they do state is what the controller itself does: `stops` counts the
/// calls of `stop`, `starts` the bursts that `begin` marked running.
pub struct BurstController {
    running: Arc<AtomicBool>,
    stops: Ghost<nat>,
    starts: Ghost<nat>,
}

impl BurstController {
    /// The flag shared with the worker.
    pub closed spec fn shared_flag(&self) -> Arc<AtomicBool> {
        self.running
    }

    /// How many times this controller was asked to stop its burst.
    pub closed spec fn stop_count(&self) -> nat {
        self.stops@
    }

    /// How many bursts this controller marked running.
    pub closed spec fn start_count(&self) -> nat {
        self.starts@
    }

    /// A controller that is not running, never started and never asked to stop.
    pub fn new() -> (r: Self)
        ensures
            r.stop_count() == 0,
            r.start_count() == 0,
    {
        BurstController {
            running: Arc::new(AtomicBool::new(false)),
            stops: Ghost(0),
            starts: Ghost(0),
        }
    }

    /// Whether a burst is running.
    pub fn is_running(&self) -> bool {
        self.running.load(Ordering::SeqCst)
    }

    /// Asks the running burst (if any) to stop; the worker stops before its
    /// next message. Each call is one more stop request.
    pub fn stop(&mut self)
        ensures
            final(self).shared_flag() == old(self).shared_flag(),
            final(self).stop_count() == old(self).stop_count() + 1,
            final(self).start_count() == old(self).start_count(),
    {
        if self.is_running() {
            self.running.store(false, Ordering::SeqCst);
        }
        self.stops = Ghost(self.stops@ + 1);
    }

    /// Marks a burst of `items` every `interval_secs` seconds as running when
    /// one may start: none is running, the interval is not 0 and there are
    /// messages (the decision of `may_start` on the flag as read). `true`
    /// means the caller must now run the worker. What the flag reads depends
    /// on the worker, so the contract does not say when `true` comes.
    pub fn begin(&mut self, interval_secs: u8, items: &Vec<String>) -> (r: bool)
        ensures
            r ==> interval_secs > 0 && items@.len() > 0,
            final(self).shared_flag() == old(self).shared_flag(),
            final(self).stop_count() == old(self).stop_count(),
            final(self).start_count() == old(self).start_count() + if r { 1nat } else { 0nat },
    {
        let running = self.is_running();
        if !may_start(running, interval_secs, items) {
            return false;
        }
        self.running.store(true, Ordering::SeqCst);
        self.starts = Ghost(self.starts@ + 1);
        true
    }

    /// The flag shared with the worker: set while a burst runs.
    pub fn flag(&self) -> (r: Arc<AtomicBool>)
        ensures
            r == self.shared_flag(),
    {
        share_flag(&self.running)
    }
}

/// Whether a burst of `items` every `interval_secs` seconds may start, given
/// whether one is `running`: none may be running, the interval must not be 0
/// and there must be messages.
pub fn may_start(running: bool, interval_secs: u8, items: &Vec<String>) -> (r: bool)
    ensures
        r == (!running && interval_secs > 0 && items@.len() > 0),
{
    !running && interval_secs != 0 && items.len() != 0
}

/// Whether a message after position `i` is not empty.
pub open spec fn has_message_after(items: Seq<Seq<char>>, i: int) -> bool {
    exists|j: int| i < j < items.len() && (#[trigger] items[j]).len() > 0
}

/// Whether the worker waits after sending message `i`: only when a non-empty
/// message is still to come.
pub fn has_next_message(items: &Vec<String>, i: usize) -> (r: bool)
    ensures
        r == has_message_after(items@.map_values(|s: String| s@), i as int),
{
    let ghost v = items@.map_values(|s: String| s@);
    if i >= items.len() {
        return false;
    }
    let mut j = i + 1;
    while j < items.len()
        invariant
            v == items@.map_values(|s: String| s@),
            i < items@.len(),
            i + 1 <= j <= items@.len(),
            forall|k: int| i < k < j ==> (#[trigger] v[k]).len() == 0,
        decreases items@.len() - j,
    {
        if !items[j].as_str().is_empty() {
            assert(v[j as int].len() > 0);
            return true;
        }
        j = j + 1;
    }
    false
}

/// Whether the worker sends message `i` (empty messages are skipped).
pub fn should_send(items: &Vec<String>, i: usize) -> (r: bool)
    requires
        i < items@.len(),
    ensures
        r == (items@[i as int]@.len() > 0),
{
    !items[i].as_str().is_empty()
}

/// What the burst worker does at message `i`.
#[derive(Debug, Clone, Copy, PartialEq, Eq, Structural)]
pub enum WorkerStep {
    /// Every message is done: clear the flag and finish.
    Finished,
    /// The flag was cleared: stop at once.
    Interrupted,
    /// Message `i` is empty: go on with the next one.
    Skip,
    /// Send message `i`, then wait `ticks` tenths of a second (stopping if the
    /// flag is cleared meanwhile) and go on with the next one.
    Send { ticks: u16 },
}

/// The step the burst worker takes at message `i` of `items`, sent every
/// `interval_secs` seconds, when the flag reads `running`: past the last
/// message it finishes; otherwise a cleared flag interrupts it, an empty
/// message is skipped, and a message is sent, followed by the interval only
/// when a non-empty message is still to come.
pub open spec fn step_of(running: bool, items: Seq<Seq<char>>, i: int, interval_secs: u8) -> WorkerStep {
    if i >= items.len() {
        WorkerStep::Finished
    } else if !running {
        WorkerStep::Interrupted
    } else if items[i].len() == 0 {
        WorkerStep::Skip
    } else if has_message_after(items, i) {
        WorkerStep::Send { ticks: (interval_secs * 10) as u16 }
    } else {
        WorkerStep::Send { ticks: 0 }
    }
}

/// The step the burst worker takes at message `i` (see `step_of`).
pub fn worker_step(running: bool, items: &Vec<String>, i: usize, interval_secs: u8) -> (r: WorkerStep)
    ensures
        r == step_of(running, items@.map_values(|s: String| s@), i as int, interval_secs),
{
    if i >= items.len() {
        return WorkerStep::Finished;
    }
    if !running {
        return WorkerStep::Interrupted;
    }
    if !should_send(items, i) {
        return WorkerStep::Skip;
    }
    if has_next_message(items, i) {
        WorkerStep::Send { ticks: interval_secs as u16 * 10 }
    } else {
        WorkerStep::Send { ticks: 0 }
    }
}

/// Whether a message is not empty.
pub open spec fn nonempty_text() -> spec_fn(Seq<char>) -> bool {
    |t: Seq<char>| t.len() > 0
}

/// The messages a worker whose flag stays set sends from message `i` on, in
/// order, each with the tenths of a second it waits afterwards.
pub open spec fn sends_from(items: Seq<Seq<char>>, i: int, interval_secs: u8) -> Seq<(Seq<char>, u16)>
    decreases items.len() - i,
{
    if i < 0 || i >= items.len() {
        Seq::empty()
    } else {
        let rest = sends_from(items, i + 1, interval_secs);
        match step_of(true, items, i, interval_secs) {
            WorkerStep::Send { ticks } => seq![(items[i], ticks)] + rest,
            _ => rest,
        }
    }
}

/// A message after `i` is not empty exactly when the non-empty messages
/// after `i` are not none.
proof fn lemma_message_after(items: Seq<Seq<char>>, i: int)
    requires
        0 <= i < items.len(),
    ensures
        has_message_after(items, i) <==> items.skip(i + 1).filter(nonempty_text()).len() > 0,
{
    let rest = items.skip(i + 1);
    let f = rest.filter(nonempty_text());
    if has_message_after(items, i) {
        let j = choose|j: int| i < j < items.len() && (#[trigger] items[j]).len() > 0;
        assert(rest[j - i - 1] == items[j]);
        rest.lemma_filter_contains(nonempty_text(), j - i - 1);
        assert(f.contains(items[j]));
    }
    if f.len() > 0 {
        rest.lemma_filter_pred(nonempty_text(), 0);
        assert(f.contains(f[0]));
        rest.lemma_filter_contains_rev(nonempty_text(), f[0]);
        let k = choose|k: int| 0 <= k < rest.len() && rest[k] == f[0];
        assert(items[i + 1 + k] == rest[k]);
        assert(items[i + 1 + k].len() > 0);
    }
}

/// The run from message `i` on sends the non-empty messages from `i` on, in
/// order, waiting the interval after each but the last.
proof fn lemma_sends_from(items: Seq<Seq<char>>, i: int, interval_secs: u8)
    requires
        0 <= i <= items.len(),
    ensures
        ({
            let f = items.skip(i).filter(nonempty_text());
            let r = sends_from(items, i, interval_secs);
            &&& r.len() == f.len()
            &&& forall|k: int| 0 <= k < r.len() ==> (#[trigger] r[k]).0 == f[k] && r[k].1 == if k + 1
                < r.len() {
                (interval_secs * 10) as u16
            } else {
                0u16
            }
        }),
    decreases items.len() - i,
{
    if i == items.len() {
        assert(items.skip(i) =~= Seq::<Seq<char>>::empty());
        assert(Seq::<Seq<char>>::empty().filter(nonempty_text()) =~= Seq::<Seq<char>>::empty()) by {
            reveal_with_fuel(Seq::<_>::filter, 1);
        }
    } else {
        lemma_sends_from(items, i + 1, interval_secs);
        lemma_message_after(items, i);
        let rest = items.skip(i + 1);
        assert(items.skip(i) =~= seq![items[i]] + rest);
        rest.lemma_filter_prepend(items[i], nonempty_text());
        let f1 = rest.filter(nonempty_text());
        let f = items.skip(i).filter(nonempty_text());
        let r1 = sends_from(items, i + 1, interval_secs);
        let r = sends_from(items, i, interval_secs);
        if items[i].len() > 0 {
            assert(f =~= seq![items[i]] + f1);
            assert forall|k: int| 0 <= k < r.len() implies (#[trigger] r[k]).0 == f[k] && r[k].1 == if k + 1
                < r.len() {
                (interval_secs * 10) as u16
            } else {
                0u16
            } by {
                if k > 0 {
                    assert(r[k] == r1[k - 1]);
                }
            }
        } else {
            assert(f =~= f1);
        }
    }
}

/// A whole burst whose flag stays set: the worker passes every message and
/// then finishes; it sends exactly the non-empty messages, in order, and
/// waits `interval_secs * 10` tenths of a second after a send exactly when
/// another send follows. A cleared flag interrupts it at any message.
pub proof fn lemma_burst_run(items: Seq<Seq<char>>, interval_secs: u8)
    ensures
        step_of(true, items, items.len() as int, interval_secs) == WorkerStep::Finished,
        forall|i: int| 0 <= i < items.len() ==> {
            let st = #[trigger] step_of(true, items, i, interval_secs);
            st !is Finished && st !is Interrupted
        },
        forall|i: int| 0 <= i < items.len() ==> #[trigger] step_of(false, items, i, interval_secs)
            == WorkerStep::Interrupted,
        sends_from(items, 0, interval_secs).map_values(|p: (Seq<char>, u16)| p.0) == items.filter(
            nonempty_text(),
        ),
        forall|k: int| 0 <= k < sends_from(items, 0, interval_secs).len() ==> (#[trigger] sends_from(
            items,
            0,
            interval_secs,
        )[k]).1 == if k + 1 < sends_from(items, 0, interval_secs).len() {
            (interval_secs * 10) as u16
        } else {
            0u16
        },
{
    lemma_sends_from(items, 0, interval_secs);
    assert(items.skip(0) =~= items);
    let r = sends_from(items, 0, interval_secs);
    assert(r.map_values(|p: (Seq<char>, u16)| p.0) =~= items.filter(nonempty_text()));
}

} // verus!
