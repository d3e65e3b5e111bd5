//! A single simulated creature of a stepped artificial-life world: its
//! heritable traits, its energy and ageing, and the rule by which competing
//! stimuli become one direction of travel.
//!
//! Every quantity is an integer. Lengths, coordinates and speeds are
//! fixed-point numbers counted in thousandths ([`geometry::UNIT`] is one whole
//! unit). Energy is counted in quanta of which [`creature::ENERGY_UNIT`] make
//! one whole unit, chosen so that the cost of a move, half the square of the
//! speed, is a whole number of quanta.

pub mod creature;
pub mod geometry;
pub mod laws;
pub mod mutatable;
pub mod objective;
