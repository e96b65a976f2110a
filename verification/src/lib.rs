//! A two-dimensional Ising spin lattice on a torus, advanced by single-spin
//! Metropolis updates.
//!
//! Every quantity is an integer. Temperature, magnetic field, thermal energy
//! and all energies are counted in thousandths of one coupling unit, and a
//! probability in thousandths of one; see [`MILLI`].

use vstd::prelude::*;

pub mod coupling;
pub mod fraction;
pub mod grid;
pub mod lattice;
pub mod laws;
pub mod random;
pub mod render;
pub mod spin;

verus! {

/// How many fixed-point steps make up one unit.
pub const MILLI: i64 = 1000;

/// The largest size the energy of one site can have, in thousandths: four
/// bonds of the greatest strength and the greatest field.
pub const SITE_ENERGY_LIMIT: i64 = 2_147_995_648;

} // verus!
