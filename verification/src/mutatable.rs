//! A heritable trait: a value together with the rate at which it mutates from
//! one generation to the next.

use rand::rngs::SmallRng;
use rand::Rng;
use vstd::prelude::*;

verus! {

/// `rand::rngs::SmallRng`, the source of randomness. It is carried through
/// to where a number is drawn; nothing is claimed of what it holds.
#[verifier::external_type_specification]
#[verifier::external_body]
pub struct ExSmallRng(SmallRng);

/// Draws a whole number from `low` to `high`, both included, by
/// `rand::Rng::gen_range` on the inclusive range `low..=high`.
///
/// Believed, not proved: the number drawn lies in the range. The empty range,
/// on which `gen_range` panics, is left out.
#[verifier::external_body]
fn draw_between(rng: &mut SmallRng, low: i64, high: i64) -> (drawn: i64)
    requires
        low <= high,
    ensures
        low <= drawn <= high,
{
    rng.gen_range(low..=high)
}

/// The whole number nearest to `v` that a trait value can hold.
pub open spec fn nearest_value(v: int) -> i32 {
    if v < i32::MIN {
        i32::MIN
    } else if v > i32::MAX {
        i32::MAX
    } else {
        v as i32
    }
}

/// A trait value, in thousandths, and its mutation rate: the largest change,
/// in thousandths, that one generation can bring.
#[derive(Debug, Copy, Clone, PartialEq, Eq, Structural)]
pub struct Mutatable {
    pub value: i32,
    pub rate: u32,
}

impl Mutatable {
    /// The trait of a child whose value differs from the parent's by `noise`,
    /// as far as a trait value can follow. The rate is handed down unchanged.
    pub open spec fn spec_mutated_by(self, noise: int) -> Mutatable {
        Mutatable { value: nearest_value(self.value + noise), rate: self.rate }
    }

    /// Whether `child` can be derived from this trait: it has the same rate,
    /// and its value is within the rate of this value.
    pub open spec fn can_mutate_to(self, child: Mutatable) -> bool {
        &&& child.rate == self.rate
        &&& -self.rate <= child.value - self.value <= self.rate
    }

    pub fn new(value: i32, rate: u32) -> (m: Mutatable)
        ensures
            m == (Mutatable { value, rate }),
    {
        Mutatable { value, rate }
    }

    /// The trait of a child whose value differs from the parent's by `noise`.
    pub fn mutated_by(&self, noise: i64) -> (child: Mutatable)
        ensures
            child == self.spec_mutated_by(noise as int),
    {
        let wanted: i128 = self.value as i128 + noise as i128;
        let value: i32 = if wanted < i32::MIN as i128 {
            i32::MIN
        } else if wanted > i32::MAX as i128 {
            i32::MAX
        } else {
            wanted as i32
        };
        Mutatable { value, rate: self.rate }
    }

    /// The trait of a child: this value, perturbed by noise that is drawn from
    /// `rng` and is no larger than the rate.
    pub fn get_mutated(&self, rng: &mut SmallRng) -> (child: Mutatable)
        ensures
            self.can_mutate_to(child),
            exists|noise: int|
                -self.rate <= noise <= self.rate && child == #[trigger] self.spec_mutated_by(noise),
    {
        let bound: i64 = self.rate as i64;
        let noise: i64 = draw_between(rng, -bound, bound);
        let child = self.mutated_by(noise);
        assert(child == self.spec_mutated_by(noise as int));
        child
    }
}

/// Noise within the rate gives a child that can be derived, and every child
/// that can be derived comes from such noise.
pub proof fn lemma_mutation_is_bounded(parent: Mutatable, child: Mutatable)
    ensures
        parent.can_mutate_to(child) <==> exists|noise: int|
            -parent.rate <= noise <= parent.rate && child == #[trigger] parent.spec_mutated_by(
                noise,
            ),
{
    if parent.can_mutate_to(child) {
        let noise = child.value - parent.value;
        assert(child == parent.spec_mutated_by(noise));
    }
}

} // verus!
