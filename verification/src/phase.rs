//! The stages that a run passes through, in their fixed order.

use vstd::prelude::*;

verus! {

/// A stage of a run. The stages follow one another without branching.
#[derive(Clone, Copy, Debug, PartialEq, Eq, Structural)]
pub enum Phase {
    /// Nothing has happened yet.
    Start,
    /// The command line is read for the number of pairs.
    ParseArgument,
    /// Both vector sequences are filled.
    GenerateVectors,
    /// The dot products are summed.
    Compute,
    /// The sum and the measured time are printed.
    ReportResults,
    /// The run is over.
    End,
}

impl Phase {
    /// The stage's place in the order, counted from zero.
    pub open spec fn ordinal(self) -> nat {
        match self {
            Phase::Start => 0,
            Phase::ParseArgument => 1,
            Phase::GenerateVectors => 2,
            Phase::Compute => 3,
            Phase::ReportResults => 4,
            Phase::End => 5,
        }
    }

    /// The stage that follows this one; the last stage follows itself.
    pub open spec fn successor(self) -> Phase {
        match self {
            Phase::Start => Phase::ParseArgument,
            Phase::ParseArgument => Phase::GenerateVectors,
            Phase::GenerateVectors => Phase::Compute,
            Phase::Compute => Phase::ReportResults,
            Phase::ReportResults => Phase::End,
            Phase::End => Phase::End,
        }
    }

    /// The stage reached after `steps` transitions.
    pub open spec fn successor_by(self, steps: nat) -> Phase
        decreases steps,
    {
        if steps == 0 {
            self
        } else {
            self.successor().successor_by((steps - 1) as nat)
        }
    }

    /// The stage that follows this one.
    pub fn next(self) -> (following: Phase)
        ensures
            following == self.successor(),
    {
        match self {
            Phase::Start => Phase::ParseArgument,
            Phase::ParseArgument => Phase::GenerateVectors,
            Phase::GenerateVectors => Phase::Compute,
            Phase::Compute => Phase::ReportResults,
            Phase::ReportResults => Phase::End,
            Phase::End => Phase::End,
        }
    }

    /// Whether the run is over.
    pub fn is_end(self) -> (over: bool)
        ensures
            over == (self == Phase::End),
            over == (self.successor() == self),
    {
        match self {
            Phase::End => true,
            _ => false,
        }
    }
}

/// The stages form a single line: each transition moves one place forward
/// until the last stage is reached, which happens after exactly as many
/// transitions as places were left.
pub proof fn lemma_phases_in_line(from: Phase, steps: nat)
    ensures
        from.successor_by(steps).ordinal() == if from.ordinal() + steps <= 5 {
            from.ordinal() + steps
        } else {
            5
        },
        from.successor_by(steps) == Phase::End <==> from.ordinal() + steps >= 5,
    decreases steps,
{
    if steps > 0 {
        lemma_phases_in_line(from.successor(), (steps - 1) as nat);
    }
}

} // verus!
