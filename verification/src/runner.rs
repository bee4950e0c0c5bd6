//! Command sequencing.
//!
//! A run executes an ordered command list strictly in order and stops at the
//! first command that fails to launch or exits non-zero; the remaining
//! commands are skipped for that run. The spawning itself is outside work:
//! the caller asks [`RunState::current`] which command to execute next,
//! performs it, and reports the outcome through [`RunState::record`].

use vstd::prelude::*;

verus! {

/// The state of one run over a command list of length `total`: commands
/// `0..next` have been executed, and `halted` is set once one of them
/// failed, skipping the rest.
pub struct RunState {
    pub total: usize,
    pub next: usize,
    pub halted: bool,
}

impl RunState {
    /// The state is well formed: never past the end of the list.
    pub open spec fn wf(self) -> bool {
        self.next <= self.total
    }

    /// Whether the run still has a command to execute.
    pub open spec fn spec_active(self) -> bool {
        !self.halted && self.next < self.total
    }

    /// A fresh run over a list of `total` commands: nothing executed yet.
    pub fn start(total: usize) -> (s: RunState)
        ensures
            s.wf(),
            s.total == total,
            s.next == 0,
            !s.halted,
    {
        RunState { total, next: 0, halted: false }
    }

    /// The index of the next command to execute, or `None` once the run is
    /// over, whether exhausted or halted by a failure.
    pub fn current(&self) -> (r: Option<usize>)
        ensures
            self.spec_active() ==> r == Some(self.next),
            !self.spec_active() ==> r is None,
    {
        if !self.halted && self.next < self.total {
            Some(self.next)
        } else {
            None
        }
    }

    /// Records the outcome of the command just executed: on success the run
    /// advances to the next command; on failure it halts, and every later
    /// command is skipped.
    pub fn record(&mut self, success: bool)
        requires
            old(self).wf(),
            old(self).spec_active(),
        ensures
            final(self).wf(),
            final(self).total == old(self).total,
            final(self).next == old(self).next + 1,
            final(self).halted == !success,
    {
        self.next = self.next + 1;
        self.halted = !success;
    }
}

/// How many commands of a list are executed in one run, given the outcome
/// each command would have: the count runs to the first failure inclusive,
/// or through the whole list when every command succeeds.
pub open spec fn executed_count(outcomes: Seq<bool>) -> nat
    decreases outcomes.len(),
{
    if outcomes.len() == 0 {
        0
    } else if outcomes[0] {
        1 + executed_count(outcomes.drop_first())
    } else {
        1
    }
}

/// Fail-fast sequencing, one direction: commands past the first failure are
/// never invoked — exactly the failing command's prefix runs.
pub proof fn lemma_stops_at_first_failure(outcomes: Seq<bool>, i: int)
    requires
        0 <= i < outcomes.len(),
        !outcomes[i],
        forall|j: int| 0 <= j < i ==> outcomes[j],
    ensures
        executed_count(outcomes) == i + 1,
    decreases i,
{
    if i > 0 {
        lemma_stops_at_first_failure(outcomes.drop_first(), i - 1);
    }
}

/// Fail-fast sequencing, other direction: when every command succeeds, all
/// of them are invoked, in order.
pub proof fn lemma_all_succeed_all_run(outcomes: Seq<bool>)
    requires
        forall|j: int| 0 <= j < outcomes.len() ==> outcomes[j],
    ensures
        executed_count(outcomes) == outcomes.len(),
    decreases outcomes.len(),
{
    if outcomes.len() > 0 {
        lemma_all_succeed_all_run(outcomes.drop_first());
    }
}

/// Replays a run whose command outcomes are known in advance and returns
/// how many commands were executed: the commands `0..r` ran, in order, and
/// the commands `r..` were skipped.
pub fn planned_run(outcomes: &Vec<bool>) -> (r: usize)
    ensures
        r == executed_count(outcomes@),
{
    let mut st = RunState::start(outcomes.len());
    proof {
        assert(outcomes@.skip(0) =~= outcomes@);
    }
    while !st.halted && st.next < st.total
        invariant
            st.wf(),
            st.total == outcomes@.len(),
            !st.halted ==> st.next + executed_count(outcomes@.skip(st.next as int))
                == executed_count(outcomes@),
            st.halted ==> st.next == executed_count(outcomes@),
        decreases st.total - st.next,
    {
        let i = st.next;
        proof {
            assert(outcomes@.skip(i as int).len() > 0);
            assert(outcomes@.skip(i as int)[0] == outcomes@[i as int]);
            assert(outcomes@.skip(i as int).drop_first() =~= outcomes@.skip(i + 1));
        }
        st.record(outcomes[i]);
    }
    proof {
        if !st.halted {
            assert(outcomes@.skip(st.next as int).len() == 0);
        }
    }
    st.next
}

} // verus!
