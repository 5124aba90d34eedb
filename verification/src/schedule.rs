//! The order of work within one run.
//!
//! A run for `count` vector pairs first generates every pair and only then
//! folds the pairs into the sum, one index after the other. [`Schedule`]
//! tracks how far a run has come and says what is due next; the arithmetic
//! on the vectors themselves is the caller's business.

use vstd::prelude::*;

verus! {

/// The piece of work that is due next.
#[derive(Clone, Copy, Debug, PartialEq, Eq, Structural)]
pub enum Step {
    /// Draw one more pair of vectors and append one to each sequence.
    Generate,
    /// Add the dot product of the pair at `index` to the running sum.
    Accumulate { index: usize },
    /// Every pair has been generated and summed.
    Finish,
}

/// How far a run has come, as plain numbers: the mathematical model of a
/// [`Schedule`].
pub struct Progress {
    /// Pairs the run was asked for.
    pub count: nat,
    /// Pairs generated so far.
    pub generated: nat,
    /// Pairs whose dot product has been added to the sum so far.
    pub accumulated: nat,
}

impl Progress {
    /// The state of a run for `count` pairs on which no work has been done.
    pub open spec fn start(count: nat) -> Progress {
        Progress { count, generated: 0, accumulated: 0 }
    }

    /// Both sequences are complete before the first dot product is taken,
    /// and neither counter exceeds the requested count.
    pub open spec fn wf(self) -> bool {
        &&& self.generated <= self.count
        &&& self.accumulated <= self.count
        &&& self.accumulated > 0 ==> self.generated == self.count
    }

    /// Units of work done so far.
    pub open spec fn completed(self) -> nat {
        self.generated + self.accumulated
    }

    /// The work that is due in this state.
    pub open spec fn step(self) -> Step {
        if self.generated < self.count {
            Step::Generate
        } else if self.accumulated < self.count {
            Step::Accumulate { index: self.accumulated as usize }
        } else {
            Step::Finish
        }
    }

    /// The state after the due work has been done. A finished run stays as
    /// it is.
    pub open spec fn advance(self) -> Progress {
        match self.step() {
            Step::Generate => Progress { generated: self.generated + 1, ..self },
            Step::Accumulate { .. } => Progress { accumulated: self.accumulated + 1, ..self },
            Step::Finish => self,
        }
    }

    /// The state after `steps` rounds of [`Progress::advance`].
    pub open spec fn advance_by(self, steps: nat) -> Progress
        decreases steps,
    {
        if steps == 0 {
            self
        } else {
            self.advance().advance_by((steps - 1) as nat)
        }
    }
}

/// Bookkeeping for one run: which step is due and how many are behind it.
pub struct Schedule {
    count: usize,
    generated: usize,
    accumulated: usize,
}

impl View for Schedule {
    type V = Progress;

    closed spec fn view(&self) -> Progress {
        Progress {
            count: self.count as nat,
            generated: self.generated as nat,
            accumulated: self.accumulated as nat,
        }
    }
}

impl Schedule {
    #[verifier::type_invariant]
    closed spec fn inv(&self) -> bool {
        self@.wf()
    }

    /// A schedule for `count` pairs with all the work ahead of it.
    pub fn new(count: usize) -> (s: Schedule)
        ensures
            s@ == Progress::start(count as nat),
    {
        Schedule { count, generated: 0, accumulated: 0 }
    }

    /// Pairs the run was asked for.
    pub fn count(&self) -> (n: usize)
        ensures
            n == self@.count,
    {
        self.count
    }

    /// Pairs generated so far; never more than [`Schedule::count`].
    pub fn generated(&self) -> (n: usize)
        ensures
            n == self@.generated,
            n <= self@.count,
    {
        proof {
            use_type_invariant(self);
        }
        self.generated
    }

    /// Pairs summed so far; positive only once every pair is generated.
    pub fn accumulated(&self) -> (n: usize)
        ensures
            n == self@.accumulated,
            n <= self@.count,
            n > 0 ==> self@.generated == self@.count,
    {
        proof {
            use_type_invariant(self);
        }
        self.accumulated
    }

    /// The work that is due. An index handed out with
    /// [`Step::Accumulate`] lies within both sequences, which are complete
    /// by then.
    pub fn step(&self) -> (step: Step)
        ensures
            step == self@.step(),
            self@.wf(),
            step matches Step::Accumulate { index } ==> index < self@.count && self@.generated
                == self@.count,
    {
        proof {
            use_type_invariant(self);
        }
        if self.generated < self.count {
            Step::Generate
        } else if self.accumulated < self.count {
            Step::Accumulate { index: self.accumulated }
        } else {
            Step::Finish
        }
    }

    /// Whether nothing is left to do.
    pub fn is_finished(&self) -> (done: bool)
        ensures
            done == (self@.step() == Step::Finish),
            done == (self@.completed() == 2 * self@.count),
    {
        proof {
            use_type_invariant(self);
        }
        self.generated == self.count && self.accumulated == self.count
    }

    /// Records that the due work has been done.
    pub fn advance(&mut self)
        ensures
            final(self)@ == old(self)@.advance(),
    {
        proof {
            use_type_invariant(&*self);
        }
        if self.generated < self.count {
            self.generated = self.generated + 1;
        } else if self.accumulated < self.count {
            self.accumulated = self.accumulated + 1;
        }
    }
}

/// Doing the due work keeps a well-formed state well-formed, leaves the
/// requested count alone, and adds one unit of work unless the run was
/// already finished.
pub proof fn lemma_advance(p: Progress)
    requires
        p.wf(),
    ensures
        p.advance().wf(),
        p.advance().count == p.count,
        p.advance().completed() == if p.step() == Step::Finish {
            p.completed()
        } else {
            p.completed() + 1
        },
{
}

/// Any number of steps keeps a well-formed state well-formed and leaves the
/// requested count alone; the units of work done grow by one per step until
/// they reach twice the count, and stay there.
pub proof fn lemma_advance_by_from(p: Progress, steps: nat)
    requires
        p.wf(),
    ensures
        p.advance_by(steps).wf(),
        p.advance_by(steps).count == p.count,
        p.advance_by(steps).completed() == if p.completed() + steps <= 2 * p.count {
            p.completed() + steps
        } else {
            2 * p.count
        },
    decreases steps,
{
    if steps > 0 {
        lemma_advance(p);
        lemma_advance_by_from(p.advance(), (steps - 1) as nat);
    }
}

/// Where a run for `count` pairs stands after `steps` units of work: the
/// first `count` units generate, the next `count` units accumulate, and
/// anything beyond changes nothing.
pub proof fn lemma_advance_by(count: nat, steps: nat)
    ensures
        Progress::start(count).advance_by(steps) == (Progress {
            count,
            generated: if steps <= count {
                steps
            } else {
                count
            },
            accumulated: if steps <= count {
                0
            } else if steps <= 2 * count {
                (steps - count) as nat
            } else {
                count
            },
        }),
{
    lemma_advance_by_from(Progress::start(count), steps);
}

/// A run for `count` pairs processes exactly `count` pairs: it generates
/// `count` times, then accumulates the indices `0` to `count - 1` in order,
/// and is finished after these `2 * count` steps and not before.
pub proof fn lemma_run_processes_every_pair(count: nat)
    requires
        count <= usize::MAX,
    ensures
        forall|k: nat|
            k < count ==> (#[trigger] Progress::start(count).advance_by(k)).step()
                == Step::Generate,
        forall|k: nat|
            count <= k < 2 * count ==> (#[trigger] Progress::start(count).advance_by(k)).step()
                == (Step::Accumulate { index: (k - count) as usize }),
        forall|k: nat|
            k >= 2 * count ==> (#[trigger] Progress::start(count).advance_by(k)).step()
                == Step::Finish,
        Progress::start(count).advance_by(2 * count).generated == count,
        Progress::start(count).advance_by(2 * count).accumulated == count,
{
    assert forall|k: nat| true implies (#[trigger] Progress::start(count).advance_by(k))
        == (Progress {
        count,
        generated: if k <= count {
            k
        } else {
            count
        },
        accumulated: if k <= count {
            0
        } else if k <= 2 * count {
            (k - count) as nat
        } else {
            count
        },
    }) by {
        lemma_advance_by(count, k);
    }
}

/// A run for no pairs is finished from the start: no step of it generates
/// anything or touches an index.
pub proof fn lemma_empty_run(steps: nat)
    ensures
        Progress::start(0).advance_by(steps) == Progress::start(0),
        Progress::start(0).step() == Step::Finish,
{
    lemma_advance_by(0, steps);
}

} // verus!
