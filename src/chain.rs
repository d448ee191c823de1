//! One Markov chain, as a state machine.
//!
//! Each iteration of a run proposes a new position (fresh momentum, then the
//! leapfrog integrator) and lets the Metropolis test accept or reject it. The
//! chain keeps the proposal when it is accepted and its current position
//! otherwise, records the kept position as the next sample, and counts the
//! accepted proposals. The position type is left to the caller.
use vstd::prelude::*;
use crate::error::SamplerError;

verus! {

/// The outcome of one iteration: the proposed position and whether the
/// Metropolis test accepted it.
pub type Outcome<P> = (P, bool);

/// The chain's position after the given iterations, starting from `start`.
pub open spec fn position_after<P>(start: P, outcomes: Seq<Outcome<P>>) -> P
    decreases outcomes.len(),
{
    if outcomes.len() == 0 {
        start
    } else if outcomes.last().1 {
        outcomes.last().0
    } else {
        position_after(start, outcomes.drop_last())
    }
}

/// The samples of a run: the `i`-th is the position kept after the first
/// `i + 1` iterations.
pub open spec fn trajectory<P>(start: P, outcomes: Seq<Outcome<P>>) -> Seq<P> {
    Seq::new(outcomes.len(), |i: int| position_after(start, outcomes.take(i + 1)))
}

/// How many of the iterations accepted their proposal.
pub open spec fn accepted_count<P>(outcomes: Seq<Outcome<P>>) -> nat
    decreases outcomes.len(),
{
    if outcomes.len() == 0 {
        0
    } else {
        accepted_count(outcomes.drop_last()) + if outcomes.last().1 { 1nat } else { 0nat }
    }
}

/// No more iterations were accepted than were run.
pub proof fn lemma_accepted_at_most_run<P>(outcomes: Seq<Outcome<P>>)
    ensures
        accepted_count(outcomes) <= outcomes.len(),
    decreases outcomes.len(),
{
    if outcomes.len() > 0 {
        lemma_accepted_at_most_run(outcomes.drop_last());
    }
}

/// One more iteration adds the position it kept to the end of the samples.
pub proof fn lemma_trajectory_push<P>(start: P, outcomes: Seq<Outcome<P>>, o: Outcome<P>)
    ensures
        trajectory(start, outcomes.push(o)) == trajectory(start, outcomes).push(
            position_after(start, outcomes.push(o)),
        ),
{
    let longer = outcomes.push(o);
    assert forall|i: int| 0 <= i < outcomes.len() implies #[trigger] longer.take(i + 1)
        == outcomes.take(i + 1) by {
        assert(longer.take(i + 1) =~= outcomes.take(i + 1));
    }
    assert(longer.take(longer.len() as int) =~= longer);
    assert(trajectory(start, longer) =~= trajectory(start, outcomes).push(
        position_after(start, longer),
    ));
}

/// Each sample is the proposal of its iteration if that was accepted, and
/// otherwise the sample before it (the starting position for the first).
pub proof fn lemma_sample_kept<P>(start: P, outcomes: Seq<Outcome<P>>, i: int)
    requires
        0 <= i < outcomes.len(),
    ensures
        trajectory(start, outcomes)[i] == if outcomes[i].1 {
            outcomes[i].0
        } else if i == 0 {
            start
        } else {
            trajectory(start, outcomes)[i - 1]
        },
{
    let prefix = outcomes.take(i + 1);
    assert(prefix.last() == outcomes[i]);
    assert(prefix.drop_last() =~= outcomes.take(i));
    assert(trajectory(start, outcomes)[i] == position_after(start, prefix));
    if !outcomes[i].1 {
        assert(position_after(start, prefix) == position_after(start, outcomes.take(i)));
        if i == 0 {
            assert(outcomes.take(0) =~= Seq::<Outcome<P>>::empty());
        } else {
            assert(trajectory(start, outcomes)[i - 1] == position_after(start, outcomes.take(i)));
        }
    }
}

/// What the driver of a run does next.
#[derive(Debug)]
pub enum Step<P> {
    /// Propose a move away from this position and report the outcome.
    Propose(P),
    /// All samples are drawn.
    Done,
}

/// The samples of a completed run and how many proposals were accepted.
#[derive(Debug)]
pub struct ChainOutcome<P> {
    /// The kept position after each iteration, in order.
    pub samples: Vec<P>,
    /// The number of iterations whose proposal was accepted.
    pub accepted: usize,
}

/// A run of one chain in progress.
pub struct Chain<P> {
    current: P,
    samples: Vec<P>,
    accepted: usize,
    n_samples: usize,
    start: Ghost<P>,
    outcomes: Ghost<Seq<Outcome<P>>>,
}

impl<P: Copy> Chain<P> {
    /// The starting position.
    pub closed spec fn start(&self) -> P {
        self.start@
    }

    /// The iterations recorded so far.
    pub closed spec fn outcomes(&self) -> Seq<Outcome<P>> {
        self.outcomes@
    }

    /// How many samples the run draws.
    pub closed spec fn n_samples(&self) -> nat {
        self.n_samples as nat
    }

    /// The run has drawn all its samples.
    pub open spec fn complete(&self) -> bool {
        self.outcomes().len() == self.n_samples()
    }

    /// The stored samples, current position and acceptance count agree with
    /// the recorded iterations, of which there are at most `n_samples`.
    pub closed spec fn wf(&self) -> bool {
        &&& self.n_samples > 0
        &&& self.outcomes@.len() <= self.n_samples
        &&& self.samples@ == trajectory(self.start@, self.outcomes@)
        &&& self.current == position_after(self.start@, self.outcomes@)
        &&& self.accepted == accepted_count(self.outcomes@)
    }

    /// Begins a run of `n_samples` iterations at `start`; a run of no
    /// samples is refused.
    pub fn new(start: P, n_samples: usize) -> (r: Result<Chain<P>, SamplerError>)
        ensures
            n_samples == 0 ==> r == Err::<Chain<P>, SamplerError>(SamplerError::NoSamples),
            n_samples > 0 ==> (r matches Ok(c) && c.wf() && c.start() == start && c.outcomes()
                == Seq::<Outcome<P>>::empty() && c.n_samples() == n_samples),
    {
        if n_samples == 0 {
            return Err(SamplerError::NoSamples);
        }
        let samples: Vec<P> = Vec::new();
        let c = Chain {
            current: start,
            samples,
            accepted: 0,
            n_samples,
            start: Ghost(start),
            outcomes: Ghost(Seq::empty()),
        };
        assert(c.samples@ =~= trajectory(start, Seq::<Outcome<P>>::empty()));
        Ok(c)
    }

    /// The next thing to do: propose a move from the current position, or
    /// stop once every sample is drawn.
    pub fn next_step(&self) -> (r: Step<P>)
        requires
            self.wf(),
        ensures
            self.complete() ==> r == Step::<P>::Done,
            !self.complete() ==> r == Step::Propose(position_after(self.start(), self.outcomes())),
    {
        if self.samples.len() == self.n_samples {
            Step::Done
        } else {
            Step::Propose(self.current)
        }
    }

    /// Records an iteration: the chain moves to `proposal` if `accept`, and
    /// stays where it is otherwise; the position it is then at becomes the
    /// next sample.
    pub fn record(&mut self, proposal: P, accept: bool)
        requires
            old(self).wf(),
            !old(self).complete(),
        ensures
            final(self).wf(),
            final(self).start() == old(self).start(),
            final(self).n_samples() == old(self).n_samples(),
            final(self).outcomes() == old(self).outcomes().push((proposal, accept)),
    {
        let ghost before = self.outcomes@;
        let ghost after = before.push((proposal, accept));
        proof {
            assert(after.drop_last() =~= before);
            lemma_trajectory_push(self.start@, before, (proposal, accept));
            lemma_accepted_at_most_run(before);
        }
        if accept {
            self.current = proposal;
            self.accepted = self.accepted + 1;
        }
        self.samples.push(self.current);
        self.outcomes = Ghost(after);
    }

    /// Ends a completed run, handing back its samples and acceptance count.
    pub fn finish(self) -> (r: ChainOutcome<P>)
        requires
            self.wf(),
            self.complete(),
        ensures
            r.samples@ == trajectory(self.start(), self.outcomes()),
            r.samples.len() == self.n_samples(),
            r.accepted == accepted_count(self.outcomes()),
            r.accepted <= r.samples.len(),
            r.samples.len() > 0,
    {
        proof {
            lemma_accepted_at_most_run(self.outcomes@);
        }
        ChainOutcome { samples: self.samples, accepted: self.accepted }
    }
}

} // verus!
