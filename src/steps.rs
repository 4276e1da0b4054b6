use vstd::prelude::*;

verus! {

/// A single-pass cursor over the time steps of a curve.
///
/// It holds the curve it samples (owned, or borrowed when `M` is a reference)
/// and the index of the step it hands out next. Step `n` stands for the
/// instant `n · dt`; the cursor never runs out of steps of its own accord, and
/// a new sequence starts only from a new cursor.
pub struct TimeSteps<M> {
    source: M,
    next: u64,
}

impl<M> TimeSteps<M> {
    /// The index of the step that the cursor hands out next.
    pub closed spec fn index(&self) -> nat {
        self.next as nat
    }

    /// The curve the cursor samples.
    pub closed spec fn curve(&self) -> M {
        self.source
    }

    /// A cursor over `source` that starts at step 0.
    pub fn new(source: M) -> (r: Self)
        ensures
            r.index() == 0,
            r.curve() == source,
    {
        TimeSteps { source, next: 0 }
    }

    /// The curve the cursor samples.
    pub fn source(&self) -> (r: &M)
        ensures
            *r == self.curve(),
    {
        &self.source
    }

    /// The index of the step that the cursor hands out next.
    pub fn position(&self) -> (r: u64)
        ensures
            r == self.index(),
    {
        self.next
    }

    /// One step of a run: `after` is `before` moved on by one step, with the
    /// same curve, and `out` is the index that `before` handed out.
    pub open spec fn stepped(before: Self, after: Self, out: u64) -> bool {
        &&& out == before.index()
        &&& after.index() == before.index() + 1
        &&& after.curve() == before.curve()
    }

    /// Hands out the current step index and moves on to the next step.
    pub fn advance(&mut self) -> (r: u64)
        requires
            old(self).index() < u64::MAX,
        ensures
            Self::stepped(*old(self), *final(self), r),
    {
        let r: u64 = self.next;
        self.next = self.next + 1;
        r
    }

    /// Gives the curve back, ending the sequence.
    pub fn into_source(self) -> (r: M)
        ensures
            r == self.curve(),
    {
        self.source
    }
}

/// In a run of a cursor from step 0, the state before the `k`-th step is at
/// index `k` and still samples the first state's curve.
proof fn lemma_state_at<M>(states: Seq<TimeSteps<M>>, outs: Seq<u64>, k: int)
    requires
        states.len() == outs.len() + 1,
        states[0].index() == 0,
        forall|j: int|
            0 <= j < outs.len() ==> TimeSteps::stepped(
                #[trigger] states[j],
                states[j + 1],
                outs[j],
            ),
        0 <= k < states.len(),
    ensures
        states[k].index() == k,
        states[k].curve() == states[0].curve(),
    decreases k,
{
    if k > 0 {
        lemma_state_at(states, outs, k - 1);
        assert(TimeSteps::stepped(states[k - 1], states[k], outs[k - 1]));
    }
}

/// A fresh cursor hands out the step numbers in order: in any run of
/// `advance` calls that starts at step 0, the `k`-th call returns `k` and
/// every state still samples the curve the run started with. So the `k`-th
/// value of a time-step sequence is the curve evaluated at `k · dt`.
pub proof fn lemma_run_hands_out_step_numbers<M>(states: Seq<TimeSteps<M>>, outs: Seq<u64>)
    requires
        states.len() == outs.len() + 1,
        states[0].index() == 0,
        forall|j: int|
            0 <= j < outs.len() ==> TimeSteps::stepped(
                #[trigger] states[j],
                states[j + 1],
                outs[j],
            ),
    ensures
        forall|k: int| 0 <= k < outs.len() ==> #[trigger] outs[k] == k,
        forall|k: int|
            0 <= k < states.len() ==> (#[trigger] states[k]).curve() == states[0].curve(),
{
    assert forall|k: int| 0 <= k < outs.len() implies #[trigger] outs[k] == k by {
        lemma_state_at(states, outs, k);
        assert(TimeSteps::stepped(states[k], states[k + 1], outs[k]));
    }
    assert forall|k: int| 0 <= k < states.len() implies (#[trigger] states[k]).curve()
        == states[0].curve() by {
        lemma_state_at(states, outs, k);
    }
}

} // verus!
