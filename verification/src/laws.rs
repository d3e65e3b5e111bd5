//! What holds of a creature through every sequence of operations.

use crate::creature::{
    leads_somewhere, nearest_energy, CreatureState, CreatureView, INITIAL_ENERGY,
};
use crate::geometry::{is_unit_of, lemma_unit_along_x_axis, lemma_unit_length, Point, Vector};
use crate::mutatable::Mutatable;
use crate::objective::{lemma_rank_is_total_order, ObjectiveIntensity};
use vstd::prelude::*;

verus! {

/// Every operation hands on the invariant of a creature, and every creature
/// that is made has it.
pub proof fn lemma_operations_keep_invariant(
    c: CreatureView,
    pos: Point,
    intensity: ObjectiveIntensity,
    cost: int,
    speed: Mutatable,
)
    requires
        c.wf(),
    ensures
        CreatureView::newborn(pos).wf(),
        c.charged(cost).wf(),
        c.moved_to(pos).wf(),
        c.with_objective(pos, intensity).wf(),
        c.without_objective().wf(),
        c.fed().wf(),
        c.asleep().wf(),
        c.child_with(speed).wf(),
        c.elder().wf(),
{
}

/// Death is final: no operation on a dead creature gives a living one.
pub proof fn lemma_dead_is_final(
    c: CreatureView,
    pos: Point,
    intensity: ObjectiveIntensity,
    cost: int,
)
    requires
        !c.is_alive(),
    ensures
        !c.charged(cost).is_alive(),
        !c.moved_to(pos).is_alive(),
        !c.with_objective(pos, intensity).is_alive(),
        !c.without_objective().is_alive(),
        !c.fed().is_alive(),
        !c.asleep().is_alive(),
{
}

/// A living creature dies of nothing but want of energy: an operation leaves
/// it dead exactly where it takes energy and leaves none above zero.
pub proof fn lemma_only_depletion_kills(
    c: CreatureView,
    pos: Point,
    intensity: ObjectiveIntensity,
    cost: int,
)
    requires
        c.is_alive(),
    ensures
        c.charged(cost).is_alive() <==> c.energy - cost > 0,
        c.moved_to(pos).is_alive() <==> c.energy - c.motion_cost() > 0,
        c.with_objective(pos, intensity).is_alive(),
        c.without_objective().is_alive(),
        c.fed().is_alive(),
        c.asleep().is_alive(),
{
}

/// No operation wakes a creature: one that is not active stays so.
pub proof fn lemma_nothing_wakes(
    c: CreatureView,
    pos: Point,
    intensity: ObjectiveIntensity,
    cost: int,
)
    requires
        !c.is_active(),
    ensures
        !c.charged(cost).is_active(),
        !c.moved_to(pos).is_active(),
        !c.with_objective(pos, intensity).is_active(),
        !c.without_objective().is_active(),
        !c.fed().is_active(),
        !c.asleep().is_active(),
{
}

/// The history is only ever appended to, and the place of birth, the age and
/// the traits stay as they are, whatever is done to a creature.
pub proof fn lemma_history_only_grows(
    c: CreatureView,
    pos: Point,
    intensity: ObjectiveIntensity,
    cost: int,
)
    ensures
        c.moved_to(pos).movement_history == c.movement_history.push(pos),
        c.charged(cost).movement_history == c.movement_history,
        c.with_objective(pos, intensity).movement_history == c.movement_history,
        c.without_objective().movement_history == c.movement_history,
        c.fed().movement_history == c.movement_history,
        c.asleep().movement_history == c.movement_history,
        same_lineage(c, c.moved_to(pos)),
        same_lineage(c, c.charged(cost)),
        same_lineage(c, c.with_objective(pos, intensity)),
        same_lineage(c, c.without_objective()),
        same_lineage(c, c.fed()),
        same_lineage(c, c.asleep()),
{
}

/// Whether two creatures have the same traits, age and place of birth.
pub open spec fn same_lineage(a: CreatureView, b: CreatureView) -> bool {
    &&& a.speed == b.speed
    &&& a.sense_range == b.sense_range
    &&& a.reach == b.reach
    &&& a.life_span == b.life_span
    &&& a.age == b.age
    &&& a.home_pos == b.home_pos
}

/// After a move the creature is where it moved to, and that place is the
/// last of its history.
pub proof fn lemma_move_arrives(c: CreatureView, pos: Point)
    ensures
        c.moved_to(pos).pos == pos,
        c.moved_to(pos).movement_history.last() == pos,
        c.moved_to(pos).last_position() == if c.movement_history.len() >= 1 {
            Some(c.movement_history.last())
        } else {
            None
        },
{
}

/// A move at a speed other than zero takes energy, unless the creature
/// already holds the least amount that it can.
pub proof fn lemma_move_takes_energy(c: CreatureView, pos: Point)
    requires
        c.speed.value != 0,
        c.energy > i64::MIN,
    ensures
        c.motion_cost() > 0,
        c.moved_to(pos).energy < c.energy,
{
    let v = c.speed.value as int;
    assert(v * v > 0) by (nonlinear_arith)
        requires
            v != 0,
    ;
}

/// The creature after moving along `path`, one place after the other.
pub open spec fn moved_along(c: CreatureView, path: Seq<Point>) -> CreatureView
    decreases path.len(),
{
    if path.len() == 0 {
        c
    } else {
        moved_along(c, path.drop_last()).moved_to(path.last())
    }
}

/// Moving along a path costs one move for each place of it: the creature ends
/// with what is left of its energy, as far as it can hold that amount, with
/// the path added to its history, and alive exactly where it was alive and
/// the whole cost leaves energy above zero.
pub proof fn lemma_moves_exhaust_energy(c: CreatureView, path: Seq<Point>)
    requires
        c.wf(),
    ensures
        moved_along(c, path).wf(),
        moved_along(c, path).speed == c.speed,
        moved_along(c, path).movement_history == c.movement_history + path,
        moved_along(c, path).energy == nearest_energy(c.energy - path.len() * c.motion_cost()),
        moved_along(c, path).is_alive() <==> c.is_alive() && c.energy - path.len()
            * c.motion_cost() > 0,
    decreases path.len(),
{
    let cost = c.motion_cost();
    let v = c.speed.value as int;
    assert(cost >= 0) by (nonlinear_arith)
        requires
            cost == v * v,
    ;
    if path.len() == 0 {
        assert(path.len() * cost == 0) by (nonlinear_arith)
            requires
                path.len() == 0,
        ;
        assert(c.movement_history + path =~= c.movement_history);
    } else {
        let before = path.drop_last();
        lemma_moves_exhaust_energy(c, before);
        let k = before.len() as int;
        assert(path.len() == k + 1);
        assert((k + 1) * cost == k * cost + cost) by (nonlinear_arith);
        assert(k * cost >= 0) by (nonlinear_arith)
            requires
                k >= 0,
                cost >= 0,
        ;
        assert((c.movement_history + before).push(path.last()) =~= c.movement_history + path);
    }
}

/// Of two objectives offered to a creature that has none, the strictly
/// stronger is kept; of two equally strong, the first.
pub proof fn lemma_stronger_objective_wins(
    c: CreatureView,
    first_place: Point,
    first: ObjectiveIntensity,
    second_place: Point,
    second: ObjectiveIntensity,
)
    requires
        c.target is None,
    ensures
        c.with_objective(first_place, first).with_objective(second_place, second).target == Some(
            if second.outranks(&first) {
                (second_place, second)
            } else {
                (first_place, first)
            },
        ),
{
}

/// The creature after it was offered `offers`, one after the other.
pub open spec fn offered_all(
    c: CreatureView,
    offers: Seq<(Point, ObjectiveIntensity)>,
) -> CreatureView
    decreases offers.len(),
{
    if offers.len() == 0 {
        c
    } else {
        offered_all(c, offers.drop_last()).with_objective(offers.last().0, offers.last().1)
    }
}

/// Whether `offers[i]` is the first of the strongest among `offers`.
pub open spec fn is_first_strongest(offers: Seq<(Point, ObjectiveIntensity)>, i: int) -> bool {
    &&& 0 <= i < offers.len()
    &&& forall|j: int| 0 <= j < offers.len() ==> !(#[trigger] offers[j]).1.outranks(&offers[i].1)
    &&& forall|j: int| 0 <= j < i ==> offers[i].1.outranks(&(#[trigger] offers[j]).1)
}

/// A creature that had no objective keeps, of all that it is offered, the
/// first of the strongest.
pub proof fn lemma_strongest_offer_is_kept(
    c: CreatureView,
    offers: Seq<(Point, ObjectiveIntensity)>,
)
    requires
        c.target is None,
        offers.len() > 0,
    ensures
        exists|i: int| #[trigger]
            is_first_strongest(offers, i) && offered_all(c, offers).target == Some(offers[i]),
        offered_all(c, offers) == (CreatureView { target: offered_all(c, offers).target, ..c }),
    decreases offers.len(),
{
    let before = offers.drop_last();
    let last = offers.last();
    if before.len() == 0 {
        assert(offered_all(c, before) == c);
        assert(is_first_strongest(offers, 0));
    } else {
        lemma_strongest_offer_is_kept(c, before);
        let i = choose|i: int| #[trigger]
            is_first_strongest(before, i) && offered_all(c, before).target == Some(before[i]);
        assert(before[i] == offers[i]);
        if last.1.outranks(&before[i].1) {
            let n = offers.len() - 1;
            assert forall|j: int| 0 <= j < offers.len() implies !(#[trigger] offers[j]).1.outranks(
                &offers[n].1,
            ) by {
                if j < n {
                    assert(offers[j] == before[j]);
                }
            }
            assert forall|j: int| 0 <= j < n implies offers[n].1.outranks(
                &(#[trigger] offers[j]).1,
            ) by {
                assert(offers[j] == before[j]);
            }
            assert(is_first_strongest(offers, n));
        } else {
            assert forall|j: int| 0 <= j < offers.len() implies !(#[trigger] offers[j]).1.outranks(
                &offers[i].1,
            ) by {
                if j < offers.len() - 1 {
                    assert(offers[j] == before[j]);
                }
            }
            assert forall|j: int| 0 <= j < i implies offers[i].1.outranks(
                &(#[trigger] offers[j]).1,
            ) by {
                assert(offers[j] == before[j]);
            }
            assert(is_first_strongest(offers, i));
        }
    }
}

/// The intensity that a creature keeps does not depend on the order in which
/// the objectives were offered: two runs of the same offers, in whatever
/// order, leave objectives of the same intensity.
pub proof fn lemma_kept_intensity_ignores_order(
    c: CreatureView,
    one: Seq<(Point, ObjectiveIntensity)>,
    other: Seq<(Point, ObjectiveIntensity)>,
)
    requires
        c.target is None,
        one.len() > 0,
        one.to_multiset() == other.to_multiset(),
    ensures
        offered_all(c, one).target is Some,
        offered_all(c, other).target is Some,
        offered_all(c, one).target.unwrap().1 == offered_all(c, other).target.unwrap().1,
{
    one.to_multiset_ensures();
    other.to_multiset_ensures();
    lemma_strongest_offer_is_kept(c, one);
    lemma_strongest_offer_is_kept(c, other);
    let i = choose|i: int| #[trigger]
        is_first_strongest(one, i) && offered_all(c, one).target == Some(one[i]);
    let j = choose|j: int| #[trigger]
        is_first_strongest(other, j) && offered_all(c, other).target == Some(other[j]);
    assert(one.contains(one[i]));
    assert(other.contains(other[j]));
    assert(other.contains(one[i])) by {
        assert(one.to_multiset().count(one[i]) > 0);
        assert(other.to_multiset().count(one[i]) > 0);
    }
    assert(one.contains(other[j])) by {
        assert(other.to_multiset().count(other[j]) > 0);
        assert(one.to_multiset().count(other[j]) > 0);
    }
    let k = choose|k: int| 0 <= k < other.len() && other[k] == one[i];
    let l = choose|l: int| 0 <= l < one.len() && one[l] == other[j];
    assert(!other[k].1.outranks(&other[j].1));
    assert(!one[l].1.outranks(&one[i].1));
    lemma_rank_is_total_order(one[i].1, other[j].1);
}

/// The heading of a creature always leads somewhere, and is no longer than
/// the displacement between two points can be.
pub proof fn lemma_heading_leads_somewhere(c: CreatureView)
    ensures
        !c.heading().is_zero(),
        c.heading().is_span(),
{
}

/// A creature steers by a direction that is never the zero vector and never
/// longer than one whole unit.
pub proof fn lemma_direction_is_unit(c: CreatureView, direction: Vector)
    requires
        is_unit_of(direction, c.heading()),
    ensures
        !direction.is_zero(),
        direction.norm_sq() <= 1_000_000,
{
    lemma_unit_length(direction, c.heading());
}

/// A creature that has no objective and has not moved steers along the
/// positive x-axis. A newborn is such a creature.
pub proof fn lemma_newborn_steers_along_x_axis(c: CreatureView, direction: Vector)
    requires
        c.target is None,
        c.movement_history.len() <= 1,
        is_unit_of(direction, c.heading()),
    ensures
        c.heading() == Vector::x_axis(),
        direction == Vector::x_axis(),
        forall|pos: Point| (#[trigger] CreatureView::newborn(pos)).heading() == Vector::x_axis(),
{
    lemma_unit_along_x_axis(direction, c.heading());
}

/// An objective at the creature's own position draws it nowhere, whether it
/// attracts or repels: the creature steers as if it had no objective, by its
/// most recent movement or else along the x-axis, and never by the zero
/// vector.
pub proof fn lemma_objective_at_own_position(c: CreatureView, intensity: ObjectiveIntensity)
    requires
        c.target == Some((c.pos, intensity)),
    ensures
        c.heading() == c.without_objective().heading(),
        c.heading() == if leads_somewhere(c.last_step()) {
            c.last_step().unwrap()
        } else {
            Vector::x_axis()
        },
        !c.heading().is_zero(),
{
}

/// A creature that moves twice to the same place has a most recent movement
/// that leads nowhere; without an objective it steers along the x-axis.
pub proof fn lemma_standing_still_steers_along_x_axis(c: CreatureView, pos: Point)
    requires
        c.target is None,
        c.movement_history.len() >= 1,
    ensures
        c.moved_to(pos).moved_to(pos).heading() == Vector::x_axis(),
{
    let once = c.moved_to(pos);
    let twice = once.moved_to(pos);
    assert(twice.movement_history[twice.movement_history.len() - 2] == pos);
}

/// Growing older changes nothing but the age, which grows by one, and resets
/// all that is not a trait.
pub proof fn lemma_elder_is_reset(c: CreatureView)
    requires
        c.age < u32::MAX,
    ensures
        c.elder().age == c.age + 1,
        c.elder().energy == INITIAL_ENERGY,
        c.elder().state == CreatureState::Active,
        c.elder().pos == c.home_pos,
        c.elder().movement_history == seq![c.home_pos],
        c.elder().foods_eaten == 0,
        c.elder().target is None,
        c.elder().speed == c.speed,
        c.elder().sense_range == c.sense_range,
        c.elder().reach == c.reach,
        c.elder().life_span == c.life_span,
        c.elder().home_pos == c.home_pos,
{
}

} // verus!
