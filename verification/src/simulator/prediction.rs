//! A two-bit saturating-counter model of branch outcomes. It is a
//! self-contained component: the execution loop does not consult it.

use vstd::prelude::*;

verus! {

/// The outcome that one executed instruction reports: a conditional branch
/// was taken or not taken, an unconditional transfer happened, or the
/// instruction was no branch at all.
#[derive(Debug, Copy, Clone, PartialEq, Eq, Structural)]
pub enum Branch {
    Taken,
    NotTaken,
    Jump,
    NoBranch,
}

/// The four states of a saturating two-bit counter over observed branch
/// outcomes.
#[derive(Debug, Copy, Clone, PartialEq, Eq, Structural)]
pub enum Predictor {
    StronglyNotTaken,
    NotTaken,
    Taken,
    StronglyTaken,
}

impl Predictor {
    /// A fresh predictor: weakly biased against taking the branch.
    pub fn new() -> (r: Self)
        ensures
            r == Predictor::NotTaken,
    {
        Self::NotTaken
    }

    /// Whether the counter currently predicts that the branch is taken.
    pub fn predicts_branch(&self) -> (r: bool)
        ensures
            r == (*self == Predictor::Taken || *self == Predictor::StronglyTaken),
    {
        match *self {
            Self::StronglyNotTaken | Self::NotTaken => false,
            Self::Taken | Self::StronglyTaken => true,
        }
    }

    /// Step the counter by one observed outcome: a taken branch moves one
    /// state toward `StronglyTaken`, a branch not taken one state toward
    /// `StronglyNotTaken`, both saturating; jumps and non-branches leave
    /// the state unchanged.
    pub fn transition(self, tran: Branch) -> (r: Self)
        ensures
            r == transition_spec(self, tran),
    {
        match tran {
            Branch::Jump | Branch::NoBranch => self,
            Branch::Taken => match self {
                Self::StronglyNotTaken => Self::NotTaken,
                Self::NotTaken => Self::Taken,
                Self::Taken => Self::StronglyTaken,
                Self::StronglyTaken => self,
            },
            Branch::NotTaken => match self {
                Self::StronglyNotTaken => self,
                Self::NotTaken => Self::StronglyNotTaken,
                Self::Taken => Self::NotTaken,
                Self::StronglyTaken => Self::Taken,
            },
        }
    }
}

/// The saturating-counter transition function: one step toward
/// `StronglyTaken` on a taken outcome, one step toward `StronglyNotTaken`
/// on a not-taken outcome, unchanged otherwise.
pub open spec fn transition_spec(state: Predictor, tran: Branch) -> Predictor {
    match tran {
        Branch::Jump | Branch::NoBranch => state,
        Branch::Taken => match state {
            Predictor::StronglyNotTaken => Predictor::NotTaken,
            Predictor::NotTaken => Predictor::Taken,
            Predictor::Taken => Predictor::StronglyTaken,
            Predictor::StronglyTaken => Predictor::StronglyTaken,
        },
        Branch::NotTaken => match state {
            Predictor::StronglyNotTaken => Predictor::StronglyNotTaken,
            Predictor::NotTaken => Predictor::StronglyNotTaken,
            Predictor::Taken => Predictor::NotTaken,
            Predictor::StronglyTaken => Predictor::Taken,
        },
    }
}

} // verus!
