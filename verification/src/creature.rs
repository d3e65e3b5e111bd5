//! The creature: its traits, its life cycle, its objective and its steering.

use crate::geometry::{displacement, distance_sq, is_unit_of, Point, Vector, UNIT};
use crate::mutatable::Mutatable;
use crate::objective::ObjectiveIntensity;
use rand::rngs::SmallRng;
use vstd::prelude::*;

verus! {

/// The number of energy quanta in one whole unit of energy. A quantum is what
/// a move costs at a speed of one thousandth.
pub const ENERGY_UNIT: i64 = 2_000_000;

/// The energy of a newborn: one hundred whole units.
pub const INITIAL_ENERGY: i64 = 200_000_000;

/// The speed of a creature without ancestors: one whole unit.
pub const DEFAULT_SPEED: i32 = 1000;

/// The mutation rate of the speed of a creature without ancestors: a tenth.
pub const DEFAULT_SPEED_RATE: u32 = 100;

/// How far a creature sees: fifty whole units.
pub const DEFAULT_SENSE_RANGE: u32 = 50_000;

/// How far a creature reaches: five whole units.
pub const DEFAULT_REACH: u32 = 5_000;

/// The age beyond which a creature does not grow older.
pub const DEFAULT_LIFE_SPAN: u32 = 4;

/// What a creature is doing. `Dead` is final.
#[derive(Debug, Copy, Clone, PartialEq, Eq, Structural)]
pub enum CreatureState {
    Dead,
    Asleep,
    Active,
}

/// One simulated creature.
#[derive(Debug, Clone)]
pub struct Creature {
    /// How far it moves in one step; handed down with mutation.
    pub speed: Mutatable,
    /// How far it sees.
    pub sense_range: u32,
    /// How far it can interact with something.
    pub reach: u32,
    pub life_span: u32,
    pub foods_eaten: u32,
    /// In quanta, of which `ENERGY_UNIT` make one whole unit.
    pub energy: i64,
    pub age: u32,
    pub pos: Point,
    pub home_pos: Point,
    /// Every position the creature has had, the place of birth first.
    pub movement_history: Vec<Point>,
    pub state: CreatureState,
    /// The place the creature currently wants to reach or to flee, and how
    /// strongly.
    pub target: Option<(Point, ObjectiveIntensity)>,
}

/// A creature as a mathematical value: the fields of [`Creature`], with the
/// history as a sequence.
pub struct CreatureView {
    pub speed: Mutatable,
    pub sense_range: u32,
    pub reach: u32,
    pub life_span: u32,
    pub foods_eaten: u32,
    pub energy: i64,
    pub age: u32,
    pub pos: Point,
    pub home_pos: Point,
    pub movement_history: Seq<Point>,
    pub state: CreatureState,
    pub target: Option<(Point, ObjectiveIntensity)>,
}

impl View for Creature {
    type V = CreatureView;

    open spec fn view(&self) -> CreatureView {
        CreatureView {
            speed: self.speed,
            sense_range: self.sense_range,
            reach: self.reach,
            life_span: self.life_span,
            foods_eaten: self.foods_eaten,
            energy: self.energy,
            age: self.age,
            pos: self.pos,
            home_pos: self.home_pos,
            movement_history: self.movement_history@,
            state: self.state,
            target: self.target,
        }
    }
}

/// The amount of energy nearest to `v` that a creature can hold.
pub open spec fn nearest_energy(v: int) -> i64 {
    if v < i64::MIN {
        i64::MIN
    } else if v > i64::MAX {
        i64::MAX
    } else {
        v as i64
    }
}

/// Whether a displacement is there and leads somewhere.
pub open spec fn leads_somewhere(d: Option<Vector>) -> bool {
    d matches Some(v) && !v.is_zero()
}

impl CreatureView {
    /// A creature just born at `pos`, without ancestors.
    pub open spec fn newborn(pos: Point) -> CreatureView {
        CreatureView {
            speed: Mutatable { value: DEFAULT_SPEED, rate: DEFAULT_SPEED_RATE },
            sense_range: DEFAULT_SENSE_RANGE,
            reach: DEFAULT_REACH,
            life_span: DEFAULT_LIFE_SPAN,
            foods_eaten: 0,
            energy: INITIAL_ENERGY,
            age: 0,
            pos,
            home_pos: pos,
            movement_history: seq![pos],
            state: CreatureState::Active,
            target: None,
        }
    }

    /// What every creature made and changed by the operations of this module
    /// satisfies: the history starts at the place of birth and ends at the
    /// current position, and a creature without energy is dead.
    pub open spec fn wf(self) -> bool {
        &&& self.movement_history.len() >= 1
        &&& self.movement_history.first() == self.home_pos
        &&& self.movement_history.last() == self.pos
        &&& self.energy <= 0 ==> self.state == CreatureState::Dead
    }

    pub open spec fn is_alive(self) -> bool {
        self.state != CreatureState::Dead
    }

    pub open spec fn is_active(self) -> bool {
        self.state == CreatureState::Active
    }

    /// Whether the creature has eaten enough to have a child.
    pub open spec fn will_reproduce(self) -> bool {
        self.foods_eaten > 1
    }

    /// What one move costs, in quanta: half the square of the speed, which is
    /// the square of the speed in thousandths.
    pub open spec fn motion_cost(self) -> int {
        self.speed.value * self.speed.value
    }

    /// The creature after it has paid `cost`: a creature whose energy does not
    /// stay above zero dies.
    pub open spec fn charged(self, cost: int) -> CreatureView {
        let energy = nearest_energy(self.energy - cost);
        CreatureView {
            energy,
            state: if energy <= 0 {
                CreatureState::Dead
            } else {
                self.state
            },
            ..self
        }
    }

    /// The creature after a move to `pos`, paid for at its speed.
    pub open spec fn moved_to(self, pos: Point) -> CreatureView {
        (CreatureView { pos, movement_history: self.movement_history.push(pos), ..self }).charged(
            self.motion_cost(),
        )
    }

    /// The creature after it was offered an objective: the offer replaces the
    /// current objective only where it is strictly stronger, or where there
    /// is none.
    pub open spec fn with_objective(
        self,
        place: Point,
        intensity: ObjectiveIntensity,
    ) -> CreatureView {
        match self.target {
            Some((_, current)) if !intensity.outranks(&current) => self,
            _ => CreatureView { target: Some((place, intensity)), ..self },
        }
    }

    /// The creature after it has forgotten its objective.
    pub open spec fn without_objective(self) -> CreatureView {
        CreatureView { target: None, ..self }
    }

    /// The creature after it has eaten once more.
    pub open spec fn fed(self) -> CreatureView {
        CreatureView { foods_eaten: (self.foods_eaten + 1) as u32, ..self }
    }

    /// The creature after going to sleep. A dead creature stays dead.
    pub open spec fn asleep(self) -> CreatureView {
        CreatureView {
            state: if self.state == CreatureState::Dead {
                CreatureState::Dead
            } else {
                CreatureState::Asleep
            },
            ..self
        }
    }

    /// The position before the current one, if the creature has moved.
    pub open spec fn last_position(self) -> Option<Point> {
        if self.movement_history.len() <= 1 {
            None
        } else {
            Some(self.movement_history[self.movement_history.len() - 2])
        }
    }

    /// Where the objective draws the creature: toward the place of a craving,
    /// away from the place of an aversion.
    pub open spec fn pull(self) -> Option<Vector> {
        match self.target {
            Some((place, intensity)) => Some(
                if intensity.spec_is_aversion() {
                    displacement(place, self.pos)
                } else {
                    displacement(self.pos, place)
                },
            ),
            None => None,
        }
    }

    /// The most recent movement: from the position before to the current one.
    pub open spec fn last_step(self) -> Option<Vector> {
        match self.last_position() {
            Some(last) => Some(displacement(last, self.pos)),
            None => None,
        }
    }

    /// The displacement along which the creature steers: the pull of its
    /// objective; where that is missing or leads nowhere, its most recent
    /// movement; where that too is missing or leads nowhere, the positive
    /// x-axis.
    pub open spec fn heading(self) -> Vector {
        if leads_somewhere(self.pull()) {
            self.pull().unwrap()
        } else if leads_somewhere(self.last_step()) {
            self.last_step().unwrap()
        } else {
            Vector::x_axis()
        }
    }

    /// The child of this creature whose speed is `speed`: born at the
    /// parent's place of birth, and in all else a newborn.
    pub open spec fn child_with(self, speed: Mutatable) -> CreatureView {
        CreatureView { speed, ..CreatureView::newborn(self.home_pos) }
    }

    /// This creature one tick older: back at its place of birth with the
    /// traits it has, and in all else a newborn.
    pub open spec fn elder(self) -> CreatureView {
        CreatureView {
            speed: self.speed,
            sense_range: self.sense_range,
            reach: self.reach,
            life_span: self.life_span,
            age: (self.age + 1) as u32,
            ..CreatureView::newborn(self.home_pos)
        }
    }
}

impl Creature {
    /// A creature just born at `pos`, without ancestors.
    pub fn new(pos: &Point) -> (c: Creature)
        ensures
            c@ == CreatureView::newborn(*pos),
            c@.wf(),
    {
        let mut movement_history: Vec<Point> = Vec::new();
        movement_history.push(*pos);
        Creature {
            speed: Mutatable::new(DEFAULT_SPEED, DEFAULT_SPEED_RATE),
            sense_range: DEFAULT_SENSE_RANGE,
            reach: DEFAULT_REACH,
            life_span: DEFAULT_LIFE_SPAN,
            foods_eaten: 0,
            energy: INITIAL_ENERGY,
            age: 0,
            pos: *pos,
            home_pos: *pos,
            movement_history,
            state: CreatureState::Active,
            target: None,
        }
    }

    pub fn get_speed(&self) -> (speed: i32)
        ensures
            speed == self@.speed.value,
    {
        self.speed.value
    }

    pub fn is_alive(&self) -> (alive: bool)
        ensures
            alive == self@.is_alive(),
    {
        match self.state {
            CreatureState::Dead => false,
            _ => true,
        }
    }

    pub fn is_active(&self) -> (active: bool)
        ensures
            active == self@.is_active(),
    {
        match self.state {
            CreatureState::Active => true,
            _ => false,
        }
    }

    /// What one move costs, in quanta.
    pub fn get_motion_energy_cost(&self) -> (cost: i64)
        ensures
            cost == self@.motion_cost(),
            cost >= 0,
            cost == 0 <==> self@.speed.value == 0,
    {
        let speed: i64 = self.speed.value as i64;
        assert(0 <= speed * speed <= 0x8000_0000 * 0x8000_0000 && (speed * speed == 0 <==> speed
            == 0)) by (nonlinear_arith)
            requires
                -0x8000_0000 <= speed <= 0x8000_0000,
        ;
        speed * speed
    }

    /// Takes `cost` from the energy; a creature whose energy does not stay
    /// above zero dies. The energy stops at the least and at the greatest
    /// amount that it can hold.
    pub fn apply_energy_cost(&mut self, cost: i64)
        ensures
            final(self)@ == old(self)@.charged(cost as int),
            final(self)@.is_alive() == (old(self)@.is_alive() && old(self)@.energy - cost > 0),
            old(self)@.wf() ==> final(self)@.wf(),
    {
        self.energy = match self.energy.checked_sub(cost) {
            Some(left) => left,
            None => if cost > 0 {
                i64::MIN
            } else {
                i64::MAX
            },
        };
        if self.energy <= 0 {
            self.state = CreatureState::Dead;
        }
    }

    /// Moves the creature to `pos`, records the move in its history, and
    /// takes the cost of one move from its energy.
    pub fn move_to(&mut self, pos: Point)
        ensures
            final(self)@ == old(self)@.moved_to(pos),
            final(self)@.pos == pos,
            final(self)@.movement_history == old(self)@.movement_history.push(pos),
            final(self)@.movement_history.last() == pos,
            final(self)@.energy <= old(self)@.energy,
            old(self)@.speed.value != 0 && old(self)@.energy > i64::MIN ==> final(self)@.energy
                < old(self)@.energy,
            final(self)@.is_alive() == (old(self)@.is_alive()
                && old(self)@.energy - old(self)@.motion_cost() > 0),
            old(self)@.wf() ==> final(self)@.wf(),
    {
        self.pos = pos;
        self.movement_history.push(pos);
        let cost: i64 = self.get_motion_energy_cost();
        self.apply_energy_cost(cost);
    }

    /// Offers the creature an objective. It replaces the current one only
    /// where it is strictly stronger, or where there is none.
    pub fn add_objective(&mut self, target_pos: Point, intensity: ObjectiveIntensity)
        ensures
            final(self)@ == old(self)@.with_objective(target_pos, intensity),
            old(self)@.wf() ==> final(self)@.wf(),
    {
        let replace: bool = match self.target {
            Some((_, current)) => intensity.rank() > current.rank(),
            None => true,
        };
        if replace {
            self.target = Some((target_pos, intensity));
        }
    }

    /// Forgets the objective.
    pub fn reset_objective(&mut self)
        ensures
            final(self)@ == old(self)@.without_objective(),
            final(self)@.target is None,
    {
        self.target = None;
    }

    pub fn will_reproduce(&self) -> (will: bool)
        ensures
            will == self@.will_reproduce(),
    {
        self.foods_eaten > 1
    }

    /// Counts one more food eaten.
    pub fn eat_food(&mut self)
        requires
            old(self)@.foods_eaten < u32::MAX,
        ensures
            final(self)@ == old(self)@.fed(),
            final(self)@.foods_eaten == old(self)@.foods_eaten + 1,
    {
        self.foods_eaten += 1;
    }

    /// Puts the creature to sleep. A dead creature stays dead.
    pub fn sleep(&mut self)
        ensures
            final(self)@ == old(self)@.asleep(),
            old(self)@.wf() ==> final(self)@.wf(),
    {
        match self.state {
            CreatureState::Dead => {},
            _ => {
                self.state = CreatureState::Asleep;
            },
        }
    }

    pub fn get_position(&self) -> (pos: Point)
        ensures
            pos == self@.pos,
    {
        self.pos
    }

    /// The position before the current one, if the creature has moved.
    pub fn get_last_position(&self) -> (last: Option<Point>)
        ensures
            last == self@.last_position(),
    {
        let len: usize = self.movement_history.len();
        if len <= 1 {
            return None;
        }
        Some(self.movement_history[len - 2])
    }

    /// Whether `pt` is no farther from the creature than it sees, by
    /// Euclidean distance.
    pub fn can_see(&self, pt: &Point) -> (sees: bool)
        ensures
            sees == (distance_sq(self@.pos, *pt) <= self@.sense_range * self@.sense_range),
    {
        self.pos.is_within(pt, self.sense_range)
    }

    /// Whether `pt` is no farther from the creature than it reaches, by
    /// Euclidean distance.
    pub fn can_reach(&self, pt: &Point) -> (reaches: bool)
        ensures
            reaches == (distance_sq(self@.pos, *pt) <= self@.reach * self@.reach),
    {
        self.pos.is_within(pt, self.reach)
    }

    /// The displacement along which the creature steers, not yet scaled to
    /// length one. It always leads somewhere.
    pub fn get_heading(&self) -> (heading: Vector)
        ensures
            heading == self@.heading(),
            heading.is_span(),
            !heading.is_zero(),
    {
        let pull: Option<Vector> = match self.target {
            Some((place, intensity)) => Some(
                if intensity.is_aversion() {
                    place.displacement_to(&self.pos)
                } else {
                    self.pos.displacement_to(&place)
                },
            ),
            None => None,
        };
        if let Some(toward) = pull {
            if !toward.leads_nowhere() {
                return toward;
            }
        }
        if let Some(last) = self.get_last_position() {
            let step: Vector = last.displacement_to(&self.pos);
            if !step.leads_nowhere() {
                return step;
            }
        }
        Vector { x: UNIT, y: 0 }
    }

    /// The direction in which the creature steers: its heading scaled to
    /// length one.
    pub fn get_direction(&self) -> (direction: Vector)
        ensures
            is_unit_of(direction, self@.heading()),
    {
        self.get_heading().unit()
    }

    /// The children of a creature whose speed would change by `noise`: one
    /// child where the creature has eaten enough, none otherwise.
    pub fn reproduce_with(&self, noise: i64) -> (children: Vec<Creature>)
        ensures
            !self@.will_reproduce() ==> children@.len() == 0,
            self@.will_reproduce() ==> children@.len() == 1 && children@[0]@ == self@.child_with(
                self@.speed.spec_mutated_by(noise as int),
            ),
    {
        let mut children: Vec<Creature> = Vec::new();
        if self.will_reproduce() {
            children.push(self.bear(self.speed.mutated_by(noise)));
        }
        children
    }

    /// The children of the creature: one child where it has eaten enough,
    /// none otherwise. The child is born at the parent's place of birth with
    /// the parent's speed, mutated by noise from `rng`; in all else it is a
    /// newborn. A creature that has no child draws nothing from `rng`.
    pub fn reproduce(&self, rng: &mut SmallRng) -> (children: Vec<Creature>)
        ensures
            !self@.will_reproduce() ==> children@.len() == 0 && *final(rng) == *old(rng),
            self@.will_reproduce() ==> children@.len() == 1 && children@[0]@ == self@.child_with(
                children@[0]@.speed,
            ) && self@.speed.can_mutate_to(children@[0]@.speed),
            self@.will_reproduce() ==> children@[0]@.foods_eaten == 0 && children@[0]@.age == 0
                && children@[0]@.pos == self@.home_pos && children@[0]@.wf(),
    {
        let mut children: Vec<Creature> = Vec::new();
        if self.will_reproduce() {
            children.push(self.bear(self.speed.get_mutated(rng)));
        }
        children
    }

    /// The child of this creature whose speed is `speed`.
    fn bear(&self, speed: Mutatable) -> (child: Creature)
        ensures
            child@ == self@.child_with(speed),
            child@.wf(),
    {
        let mut child: Creature = Creature::new(&self.home_pos);
        child.speed = speed;
        child
    }

    /// The creature one tick older, unless it has outlived its life span: a
    /// creature back at its place of birth, with the traits of this one and
    /// in all else a newborn.
    pub fn grow_older(&self) -> (older: Option<Creature>)
        requires
            self@.age <= self@.life_span ==> self@.age < u32::MAX,
        ensures
            self@.age > self@.life_span ==> older is None,
            self@.age <= self@.life_span ==> older is Some && older.unwrap()@ == self@.elder(),
            older matches Some(c) ==> c@.wf() && c@.age == self@.age + 1 && c@.energy
                == INITIAL_ENERGY,
    {
        if self.age > self.life_span {
            None
        } else {
            let mut older: Creature = Creature::new(&self.home_pos);
            older.speed = self.speed;
            older.sense_range = self.sense_range;
            older.reach = self.reach;
            older.life_span = self.life_span;
            older.age = self.age + 1;
            Some(older)
        }
    }
}

} // verus!
