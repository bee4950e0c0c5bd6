//! Debounce coalescing.
//!
//! Raw change notifications arrive with a timestamp, in milliseconds. A
//! [`Debouncer`] accumulates them into a pending burst; every notification
//! restarts a timer of one window length (a true debounce), and the burst is
//! delivered as one batch only once the timer has elapsed with no further
//! notification. Notifications arriving strictly within one window of the
//! previous one therefore collapse into a single downstream evaluation, and
//! notifications separated by at least the window each get their own.

use vstd::prelude::*;

verus! {

/// The debounce accumulator: the pending burst and the time at which it is
/// due, absent exactly when no notification is pending.
pub struct Debouncer {
    pub window: u64,
    pub pending: Vec<String>,
    pub deadline: Option<u64>,
}

impl Debouncer {
    /// The accumulator is well formed: the window is positive and a
    /// deadline is set exactly while a burst is pending.
    pub open spec fn wf(self) -> bool {
        &&& self.window >= 1
        &&& (self.deadline is Some <==> self.pending@.len() > 0)
    }

    /// Whether the pending burst is due at time `now`.
    pub open spec fn spec_due(self, now: u64) -> bool {
        self.deadline matches Some(d) && now >= d
    }

    /// A fresh accumulator with nothing pending.
    pub fn new(window: u64) -> (d: Debouncer)
        requires
            window >= 1,
        ensures
            d.wf(),
            d.window == window,
            d.pending@.len() == 0,
            d.deadline is None,
    {
        Debouncer { window, pending: Vec::new(), deadline: None }
    }

    /// Accumulates one notification arriving at time `now`: the path joins
    /// the pending burst and the timer restarts one full window from `now`.
    pub fn record(&mut self, now: u64, path: String)
        requires
            old(self).wf(),
            now + old(self).window <= u64::MAX,
        ensures
            final(self).wf(),
            final(self).window == old(self).window,
            final(self).pending@ == old(self).pending@.push(path),
            final(self).deadline == Some((now + old(self).window) as u64),
    {
        self.pending.push(path);
        self.deadline = Some(now + self.window);
    }

    /// Whether the pending burst is due at time `now`.
    pub fn due(&self, now: u64) -> (r: bool)
        ensures
            r == self.spec_due(now),
    {
        match self.deadline {
            Some(d) => now >= d,
            None => false,
        }
    }

    /// Delivers the pending burst if it is due at time `now`: the whole
    /// batch comes out at once and the accumulator returns to idle.
    /// Otherwise nothing changes and nothing is delivered.
    pub fn take_batch(&mut self, now: u64) -> (r: Option<Vec<String>>)
        requires
            old(self).wf(),
        ensures
            final(self).wf(),
            final(self).window == old(self).window,
            old(self).spec_due(now) ==> (r matches Some(batch) && batch@ == old(self).pending@
                && final(self).pending@.len() == 0 && final(self).deadline is None),
            !old(self).spec_due(now) ==> (r is None && final(self).pending@ == old(self).pending@
                && final(self).deadline == old(self).deadline),
    {
        if self.due(now) {
            let batch = self.pending.split_off(0);
            self.deadline = None;
            proof {
                assert(batch@ =~= old(self).pending@);
                assert(self.pending@ =~= Seq::<String>::empty());
            }
            Some(batch)
        } else {
            None
        }
    }
}

/// How many bursts a sequence of notification times falls into, under
/// restart-on-new-event debouncing: a notification opens a new burst exactly
/// when it arrives at least one window after the previous one.
pub open spec fn burst_count(times: Seq<u64>, window: u64) -> nat
    decreases times.len(),
{
    if times.len() == 0 {
        0
    } else if times.len() == 1 {
        1
    } else {
        burst_count(times.drop_last(), window) + (if times[times.len() - 1] >= times[times.len()
            - 2] + window {
            1nat
        } else {
            0nat
        })
    }
}

/// Debounce coalescing, one direction: notifications each arriving strictly
/// within one window of the previous one collapse into a single burst.
pub proof fn lemma_burst_coalesces(times: Seq<u64>, window: u64)
    requires
        times.len() >= 1,
        forall|i: int| 1 <= i < times.len() ==> #[trigger] times[i] < times[i - 1] + window,
    ensures
        burst_count(times, window) == 1,
    decreases times.len(),
{
    if times.len() > 1 {
        lemma_burst_coalesces(times.drop_last(), window);
    }
}

/// Debounce coalescing, other direction: notifications separated by at
/// least one full window each form their own burst.
pub proof fn lemma_burst_separates(times: Seq<u64>, window: u64)
    requires
        forall|i: int| 1 <= i < times.len() ==> #[trigger] times[i] >= times[i - 1] + window,
    ensures
        burst_count(times, window) == times.len(),
    decreases times.len(),
{
    if times.len() > 1 {
        lemma_burst_separates(times.drop_last(), window);
    }
}

/// The arrival times of a recorded notification trace.
pub open spec fn times_of(events: Seq<(u64, String)>) -> Seq<u64> {
    events.map_values(|e: (u64, String)| e.0)
}

/// The notified paths of a recorded notification trace, in arrival order.
pub open spec fn paths_of(events: Seq<(u64, String)>) -> Seq<String> {
    events.map_values(|e: (u64, String)| e.1)
}

/// The delivered batches, flattened back into one sequence of paths.
pub open spec fn batch_paths(batches: Seq<Vec<String>>) -> Seq<String>
    decreases batches.len(),
{
    if batches.len() == 0 {
        Seq::<String>::empty()
    } else {
        batch_paths(batches.drop_last()) + batches.last()@
    }
}

proof fn lemma_batch_paths_push(batches: Seq<Vec<String>>, b: Vec<String>)
    ensures
        batch_paths(batches.push(b)) == batch_paths(batches) + b@,
{
    assert(batches.push(b).drop_last() =~= batches);
    assert(batches.push(b).last() == b);
}

/// The views of the delivered batches.
pub open spec fn batch_views(batches: Seq<Vec<String>>) -> Seq<Seq<String>> {
    batches.map_values(|b: Vec<String>| b@)
}

/// The partition of a recorded notification trace (times non-decreasing)
/// into bursts, under restart-on-new-event debouncing: a notification
/// arriving at least one window after the previous one opens a new burst,
/// any other joins the burst in progress.
pub open spec fn bursts_of(events: Seq<(u64, String)>, window: u64) -> Seq<Seq<String>>
    decreases events.len(),
{
    if events.len() == 0 {
        Seq::<Seq<String>>::empty()
    } else if events.len() == 1 {
        seq![seq![events[0].1]]
    } else {
        let prior = bursts_of(events.drop_last(), window);
        if events[events.len() - 1].0 >= events[events.len() - 2].0 + window {
            prior.push(seq![events[events.len() - 1].1])
        } else {
            prior.update(prior.len() - 1, prior.last().push(events[events.len() - 1].1))
        }
    }
}

/// Replays a recorded notification trace (times non-decreasing) through a
/// debouncer and collects the delivered batches: exactly the trace's burst
/// partition, every notification in its burst's batch, in arrival order.
pub fn run_trace(window: u64, events: &Vec<(u64, String)>) -> (batches: Vec<Vec<String>>)
    requires
        window >= 1,
        forall|i: int| 0 <= i < events@.len() ==> (#[trigger] events@[i]).0 + window <= u64::MAX,
        forall|i: int| 1 <= i < events@.len() ==> (#[trigger] events@[i]).0 >= events@[i - 1].0,
    ensures
        batch_views(batches@) == bursts_of(events@, window),
        batches@.len() == burst_count(times_of(events@), window),
        batch_paths(batches@) == paths_of(events@),
{
    let ghost times = times_of(events@);
    let mut deb = Debouncer::new(window);
    let mut batches: Vec<Vec<String>> = Vec::new();
    let mut k: usize = 0;
    while k < events.len()
        invariant
            deb.wf(),
            deb.window == window,
            window >= 1,
            k <= events@.len(),
            times == times_of(events@),
            times.len() == events@.len(),
            forall|i: int| 0 <= i < events@.len() ==> (#[trigger] events@[i]).0 + window
                <= u64::MAX,
            forall|i: int| 1 <= i < events@.len() ==> (#[trigger] events@[i]).0 >= events@[i
                - 1].0,
            forall|i: int| 0 <= i < events@.len() ==> times[i] == (#[trigger] events@[i]).0,
            k == 0 ==> batches@.len() == 0 && deb.pending@.len() == 0,
            k > 0 ==> deb.deadline == Some((events@[k - 1].0 + window) as u64),
            k > 0 ==> batches@.len() + 1 == burst_count(times.take(k as int), window),
            batch_paths(batches@) + deb.pending@ =~= paths_of(events@).take(k as int),
            k > 0 ==> bursts_of(events@.take(k as int), window) =~= batch_views(batches@).push(
                deb.pending@,
            ),
        decreases events@.len() - k,
    {
        let now = events[k].0;
        let ghost pre_batches = batches@;
        let ghost pre_pending = deb.pending@;
        if k > 0 {
            if let Some(batch) = deb.take_batch(now) {
                proof {
                    lemma_batch_paths_push(batches@, batch);
                    assert(batch_views(batches@.push(batch)) =~= batch_views(batches@).push(
                        batch@,
                    ));
                }
                batches.push(batch);
            }
        }
        let path = events[k].1.clone();
        deb.record(now, path);
        proof {
            assert(times.take(k + 1).drop_last() =~= times.take(k as int));
            if k > 0 {
                assert(times.take(k + 1)[k as int] == events@[k as int].0);
                assert(times.take(k + 1)[k - 1] == events@[k - 1].0);
            }
            assert(paths_of(events@).take(k + 1) =~= paths_of(events@).take(k as int).push(
                events@[k as int].1,
            ));
            let ghost taken = events@.take(k + 1);
            assert(taken.drop_last() =~= events@.take(k as int));
            assert(taken[k as int] == events@[k as int]);
            if k == 0 {
                assert(deb.pending@ =~= seq![events@[0].1]);
                assert(bursts_of(taken, window) =~= seq![seq![events@[0].1]]);
                assert(batch_views(batches@).push(deb.pending@) =~= seq![seq![events@[0].1]]);
            } else {
                assert(taken[k - 1] == events@[k - 1]);
                let ghost prior = bursts_of(events@.take(k as int), window);
                if events@[k as int].0 >= events@[k - 1].0 + window {
                    // A new burst opened: the due batch was delivered.
                    assert(deb.pending@ =~= seq![events@[k as int].1]);
                    assert(bursts_of(taken, window) =~= prior.push(seq![events@[k as int].1]));
                    assert(batch_views(batches@).push(deb.pending@) =~= batch_views(
                        pre_batches,
                    ).push(pre_pending).push(seq![events@[k as int].1]));
                } else {
                    // Same burst: the notification joined the pending batch.
                    assert(bursts_of(taken, window) =~= prior.update(
                        prior.len() - 1,
                        prior.last().push(events@[k as int].1),
                    ));
                    assert(prior.last() == pre_pending);
                    assert(prior.update(prior.len() - 1, pre_pending.push(events@[k as int].1))
                        =~= batch_views(pre_batches).push(pre_pending.push(
                        events@[k as int].1,
                    )));
                }
            }
        }
        k += 1;
    }
    if events.len() > 0 {
        proof {
            assert(times.take(events@.len() as int) =~= times);
            assert(events@.take(events@.len() as int) =~= events@);
        }
        if let Some(batch) = deb.take_batch(u64::MAX) {
            proof {
                lemma_batch_paths_push(batches@, batch);
                assert(batch_views(batches@.push(batch)) =~= batch_views(batches@).push(batch@));
            }
            batches.push(batch);
        }
    } else {
        proof {
            assert(bursts_of(events@, window) =~= batch_views(batches@));
        }
    }
    proof {
        assert(paths_of(events@).take(events@.len() as int) =~= paths_of(events@));
    }
    batches
}

} // verus!
