//! The two-valued spin at a lattice site.

use vstd::prelude::*;

verus! {

/// A magnetic moment that points up (+1) or down (-1).
#[derive(Clone, Copy, Debug, PartialEq, Eq, Hash, Structural)]
pub enum Spin {
    Up,
    Down,
}

impl Spin {
    /// The integer a spin stands for: +1 for `Up`, -1 for `Down`.
    pub open spec fn sign(self) -> int {
        match self {
            Spin::Up => 1,
            Spin::Down => -1,
        }
    }

    /// The opposite spin.
    pub open spec fn negated(self) -> Spin {
        match self {
            Spin::Up => Spin::Down,
            Spin::Down => Spin::Up,
        }
    }

    /// The spin that a coin stands for: `Up` for `true`, `Down` for `false`.
    pub fn from_draw(up: bool) -> (s: Spin)
        ensures
            s == (if up { Spin::Up } else { Spin::Down }),
    {
        if up {
            Spin::Up
        } else {
            Spin::Down
        }
    }

    /// The spin as +1 or -1.
    pub fn value(self) -> (v: i32)
        ensures
            v == self.sign(),
    {
        match self {
            Spin::Up => 1,
            Spin::Down => -1,
        }
    }

    /// The opposite spin.
    pub fn flipped(self) -> (s: Spin)
        ensures
            s == self.negated(),
            s.sign() == -self.sign(),
    {
        match self {
            Spin::Up => Spin::Down,
            Spin::Down => Spin::Up,
        }
    }

    /// The product of two spins: +1 when they are aligned, -1 when they are not.
    pub fn times(self, other: Spin) -> (p: i32)
        ensures
            p == self.sign() * other.sign(),
            p == 1 <==> self == other,
            p == -1 <==> self != other,
    {
        proof {
            lemma_sign_product(self, other);
        }
        match (self, other) {
            (Spin::Up, Spin::Up) => 1,
            (Spin::Down, Spin::Down) => 1,
            (Spin::Up, Spin::Down) => -1,
            (Spin::Down, Spin::Up) => -1,
        }
    }
}

/// The product of two signs is +1 for equal spins and -1 for opposite ones.
pub proof fn lemma_sign_product(a: Spin, b: Spin)
    ensures
        a.sign() * b.sign() == (if a == b { 1int } else { -1int }),
        a.sign() * a.sign() == 1,
{
    let x = a.sign();
    let y = b.sign();
    assert(x * y == (if x == y { 1int } else { -1int }) && x * x == 1) by (nonlinear_arith)
        requires
            x == 1 || x == -1,
            y == 1 || y == -1,
    ;
}

} // verus!
