//! Bond strengths between neighbouring sites, and the choices a lattice is
//! built from.

use crate::random::ratio;
use vstd::prelude::*;

verus! {

/// The two bonds a site stores: the one to the site above it and the one to
/// the site on its left. The bonds below and to the right belong to the
/// neighbours on those sides, so every bond is stored exactly once.
#[derive(Clone, Copy, Debug, PartialEq, Eq, Structural)]
pub struct InterationsStorage {
    pub up: i8,
    pub left: i8,
}

/// The four bonds that meet at a site, gathered from the site and from its
/// neighbours below and on the right.
#[derive(Clone, Copy, Debug, PartialEq, Eq, Structural)]
pub struct Interactions {
    pub up: i8,
    pub left: i8,
    pub down: i8,
    pub right: i8,
}

/// How the spins are set when a lattice is built.
#[derive(Clone, Copy, Debug, PartialEq, Eq, Hash, Structural)]
pub enum LatticeInitialState {
    Random,
    AllUp,
    AllDown,
}

/// How the bonds are set when a lattice is built.
#[derive(Clone, Copy, Debug, PartialEq, Eq, Structural)]
pub enum LatticeType {
    /// Every bond is +1.
    Ferromagnetic,
    /// Every bond is -1.
    Antiferromagnetic,
    /// Each bond is drawn on its own: -1 with the chance `p_antiferro`, given
    /// in thousandths, and +1 otherwise.
    SpinGlass { p_antiferro: i32 },
}

/// Why a lattice could not be built.
#[derive(Clone, Copy, Debug, PartialEq, Eq, Structural)]
pub enum ConstructionError {
    /// The side length was zero.
    InvalidSize,
    /// The chance of an antiferromagnetic bond was below zero or above one.
    InvalidProbability,
}

/// The strength of a bond: +1 when it is ferromagnetic, -1 when it is not.
pub open spec fn bond_strength(ferromagnetic: bool) -> int {
    if ferromagnetic {
        1
    } else {
        -1
    }
}

impl LatticeType {
    /// Whether the chance of an antiferromagnetic bond, where there is one,
    /// lies between zero and one.
    pub open spec fn valid(self) -> bool {
        match self {
            LatticeType::SpinGlass { p_antiferro } => 0 <= p_antiferro <= 1000,
            _ => true,
        }
    }

    /// Whether a site with the bonds `b` can belong to a lattice of this kind.
    pub open spec fn admits(self, b: InterationsStorage) -> bool {
        match self {
            LatticeType::Ferromagnetic => b == InterationsStorage::spec_uniform(true),
            LatticeType::Antiferromagnetic => b == InterationsStorage::spec_uniform(false),
            LatticeType::SpinGlass { p_antiferro } => {
                &&& b.up == 1 || b.up == -1
                &&& b.left == 1 || b.left == -1
                &&& p_antiferro == 0 ==> b == InterationsStorage::spec_uniform(true)
                &&& p_antiferro == 1000 ==> b == InterationsStorage::spec_uniform(false)
            },
        }
    }

    /// Whether the chance of an antiferromagnetic bond, where there is one,
    /// lies between zero and one.
    pub fn is_valid(&self) -> (ok: bool)
        ensures
            ok == self.valid(),
    {
        match self {
            LatticeType::SpinGlass { p_antiferro } => 0 <= *p_antiferro && *p_antiferro <= 1000,
            _ => true,
        }
    }
}

impl InterationsStorage {
    /// Two bonds of the same kind.
    pub open spec fn spec_uniform(ferromagnetic: bool) -> InterationsStorage {
        InterationsStorage {
            up: bond_strength(ferromagnetic) as i8,
            left: bond_strength(ferromagnetic) as i8,
        }
    }

    /// Both bonds +1.
    pub fn ferromagnetic() -> (b: InterationsStorage)
        ensures
            b == Self::spec_uniform(true),
    {
        InterationsStorage { up: 1, left: 1 }
    }

    /// Both bonds -1.
    pub fn antiferromagnetic() -> (b: InterationsStorage)
        ensures
            b == Self::spec_uniform(false),
    {
        InterationsStorage { up: -1, left: -1 }
    }

    /// The bonds that two draws stand for: a draw that came out `true` gives a
    /// ferromagnetic bond, +1, and one that came out `false` an
    /// antiferromagnetic bond, -1.
    pub fn from_draws(up_ferromagnetic: bool, left_ferromagnetic: bool) -> (b: InterationsStorage)
        ensures
            b.up == bond_strength(up_ferromagnetic),
            b.left == bond_strength(left_ferromagnetic),
    {
        InterationsStorage {
            up: if up_ferromagnetic { 1 } else { -1 },
            left: if left_ferromagnetic { 1 } else { -1 },
        }
    }

    /// Two bonds drawn independently, each antiferromagnetic with the chance
    /// `antiferromagnetic_probability`, given in thousandths. Which bonds come
    /// out is not determined, except at the two ends: a chance of zero gives
    /// two ferromagnetic bonds and a chance of one two antiferromagnetic ones.
    pub fn spin_glass(antiferromagnetic_probability: i32) -> (b: InterationsStorage)
        requires
            0 <= antiferromagnetic_probability <= 1000,
        ensures
            (LatticeType::SpinGlass { p_antiferro: antiferromagnetic_probability }).admits(b),
    {
        let ferromagnetic: u32 = (1000 - antiferromagnetic_probability) as u32;
        let up = ratio(ferromagnetic, 1000);
        let left = ratio(ferromagnetic, 1000);
        Self::from_draws(up, left)
    }
}

} // verus!
