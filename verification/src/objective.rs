//! How strongly a creature wants to reach a place, or to get away from it.

use std::cmp::Ordering;
use vstd::prelude::*;

verus! {

/// The urgency of an objective, and whether it attracts or repels.
///
/// The variants are listed from the weakest to the strongest. Within one tier
/// of urgency the aversion outranks the craving.
#[derive(Debug, Copy, Clone, PartialEq, Eq, Structural)]
pub enum ObjectiveIntensity {
    MinorCraving,
    MinorAversion,
    ModerateCraving,
    ModerateAversion,
    MajorCraving,
    MajorAversion,
    VitalCraving,
    VitalAversion,
}

impl ObjectiveIntensity {
    /// The place of this intensity in the order, from 0 for the weakest.
    pub open spec fn spec_rank(&self) -> u8 {
        match self {
            ObjectiveIntensity::MinorCraving => 0,
            ObjectiveIntensity::MinorAversion => 1,
            ObjectiveIntensity::ModerateCraving => 2,
            ObjectiveIntensity::ModerateAversion => 3,
            ObjectiveIntensity::MajorCraving => 4,
            ObjectiveIntensity::MajorAversion => 5,
            ObjectiveIntensity::VitalCraving => 6,
            ObjectiveIntensity::VitalAversion => 7,
        }
    }

    /// Whether the objective is a place to get away from.
    pub open spec fn spec_is_aversion(&self) -> bool {
        match self {
            ObjectiveIntensity::MinorAversion
            | ObjectiveIntensity::ModerateAversion
            | ObjectiveIntensity::MajorAversion
            | ObjectiveIntensity::VitalAversion => true,
            _ => false,
        }
    }

    /// Whether this intensity is strictly stronger than `other`.
    pub open spec fn outranks(&self, other: &ObjectiveIntensity) -> bool {
        self.spec_rank() > other.spec_rank()
    }

    /// The place of this intensity in the order, from 0 for the weakest.
    #[verifier::when_used_as_spec(spec_rank)]
    pub fn rank(&self) -> (r: u8)
        ensures
            r == self.spec_rank(),
    {
        match self {
            ObjectiveIntensity::MinorCraving => 0,
            ObjectiveIntensity::MinorAversion => 1,
            ObjectiveIntensity::ModerateCraving => 2,
            ObjectiveIntensity::ModerateAversion => 3,
            ObjectiveIntensity::MajorCraving => 4,
            ObjectiveIntensity::MajorAversion => 5,
            ObjectiveIntensity::VitalCraving => 6,
            ObjectiveIntensity::VitalAversion => 7,
        }
    }

    /// Whether the objective is a place to get away from.
    #[verifier::when_used_as_spec(spec_is_aversion)]
    pub fn is_aversion(&self) -> (r: bool)
        ensures
            r == self.spec_is_aversion(),
    {
        match self {
            ObjectiveIntensity::MinorAversion
            | ObjectiveIntensity::ModerateAversion
            | ObjectiveIntensity::MajorAversion
            | ObjectiveIntensity::VitalAversion => true,
            _ => false,
        }
    }
}

impl PartialOrd for ObjectiveIntensity {
    fn partial_cmp(&self, other: &ObjectiveIntensity) -> (r: Option<Ordering>) {
        let mine: u8 = self.rank();
        let theirs: u8 = other.rank();
        if mine < theirs {
            Some(Ordering::Less)
        } else if mine > theirs {
            Some(Ordering::Greater)
        } else {
            Some(Ordering::Equal)
        }
    }
}

impl vstd::std_specs::cmp::PartialOrdSpecImpl for ObjectiveIntensity {
    open spec fn obeys_partial_cmp_spec() -> bool {
        true
    }

    open spec fn partial_cmp_spec(&self, other: &ObjectiveIntensity) -> Option<Ordering> {
        if self.spec_rank() < other.spec_rank() {
            Some(Ordering::Less)
        } else if self.spec_rank() > other.spec_rank() {
            Some(Ordering::Greater)
        } else {
            Some(Ordering::Equal)
        }
    }
}

/// The order of the intensities is total: two of them are equal exactly when
/// they have the same rank, and an aversion sits directly above the craving of
/// its tier.
pub proof fn lemma_rank_is_total_order(a: ObjectiveIntensity, b: ObjectiveIntensity)
    ensures
        a.spec_rank() < 8,
        a == b <==> a.spec_rank() == b.spec_rank(),
        a.outranks(&b) || b.outranks(&a) || a == b,
        !(a.outranks(&b) && b.outranks(&a)),
        a.spec_is_aversion() <==> a.spec_rank() % 2 == 1,
{
}

} // verus!
