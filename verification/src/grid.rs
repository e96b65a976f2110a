//! The mathematical model of a lattice: what it holds, how sites are
//! addressed on the torus, and what its energy is.

use crate::coupling::{Interactions, InterationsStorage, LatticeType};
use crate::render::colour;
use crate::spin::{lemma_sign_product, Spin};
use crate::{MILLI, SITE_ENERGY_LIMIT};
use vstd::arithmetic::div_mod::{lemma_add_mod_noop_right, lemma_fundamental_div_mod_converse};
use vstd::prelude::*;

verus! {

/// A lattice as a mathematical value.
pub struct Grid {
    /// The side length.
    pub size: nat,
    /// The spins, row by row.
    pub spins: Seq<Spin>,
    /// The stored bonds of each site, row by row.
    pub bonds: Seq<InterationsStorage>,
    /// The temperature, in thousandths.
    pub temperature: int,
    /// The magnetic field along the spin axis, in thousandths.
    pub field: int,
}

/// A coordinate brought into `0..size` by going round the torus.
pub open spec fn wrap(c: int, size: nat) -> int {
    c % (size as int)
}

/// The place of the site `(x, y)` in the row-by-row order.
pub open spec fn site(size: nat, x: int, y: int) -> int {
    wrap(x, size) + wrap(y, size) * size
}

/// The energy of one bond of strength `j` between the spins `a` and `b`, in
/// thousandths.
pub open spec fn bond_energy(j: int, a: Spin, b: Spin) -> int {
    -(MILLI * (j * (a.sign() * b.sign())))
}

impl Grid {
    /// The side length is at least one and every site has its spin and bonds.
    pub open spec fn wf(self) -> bool {
        &&& self.size >= 1
        &&& self.spins.len() == self.size * self.size
        &&& self.bonds.len() == self.size * self.size
    }

    /// The number of sites.
    pub open spec fn sites(self) -> nat {
        self.size * self.size
    }

    /// Whether every spin is `spin`.
    pub open spec fn uniform(self, spin: Spin) -> bool {
        self.spins == Seq::new(self.sites(), |i: int| spin)
    }

    /// Whether the bonds of every site are those of a lattice of the given
    /// kind.
    pub open spec fn bonded(self, lattice_type: LatticeType) -> bool {
        forall|i: int| 0 <= i < self.bonds.len() ==> lattice_type.admits(#[trigger] self.bonds[i])
    }

    /// Whether every bond is ferromagnetic.
    pub open spec fn ferromagnetic(self) -> bool {
        self.bonded(LatticeType::Ferromagnetic)
    }

    /// The spin at `(x, y)`.
    pub open spec fn spin_at(self, x: int, y: int) -> Spin {
        self.spins[site(self.size, x, y)]
    }

    /// The four bonds that meet at `(x, y)`: its own two, the upward bond of
    /// the site below and the leftward bond of the site on the right.
    pub open spec fn interactions(self, x: int, y: int) -> Interactions {
        Interactions {
            up: self.bonds[site(self.size, x, y)].up,
            left: self.bonds[site(self.size, x, y)].left,
            down: self.bonds[site(self.size, x, y + 1)].up,
            right: self.bonds[site(self.size, x + 1, y)].left,
        }
    }

    /// The lattice with the spin at `(x, y)` turned over.
    pub open spec fn flip(self, x: int, y: int) -> Grid {
        Grid {
            spins: self.spins.update(site(self.size, x, y), self.spin_at(x, y).negated()),
            ..self
        }
    }

    /// The energy of the site `(x, y)`: its four bonds and its share of the
    /// field, in thousandths.
    pub open spec fn hamiltonian(self, x: int, y: int) -> int {
        let s = self.spin_at(x, y);
        let j = self.interactions(x, y);
        bond_energy(j.left as int, s, self.spin_at(x - 1, y))
            + bond_energy(j.up as int, s, self.spin_at(x, y - 1))
            + bond_energy(j.right as int, s, self.spin_at(x + 1, y))
            + bond_energy(j.down as int, s, self.spin_at(x, y + 1))
            - s.sign() * self.field
    }
}

impl Grid {
    /// The energies of the first `n` sites of row `y`, added up.
    pub open spec fn row_energy(self, y: int, n: nat) -> int
        decreases n,
    {
        if n == 0 {
            0
        } else {
            self.row_energy(y, (n - 1) as nat) + self.hamiltonian(n - 1, y)
        }
    }

    /// The energies of the sites in the first `rows` rows, added up.
    pub open spec fn rows_energy(self, rows: nat) -> int
        decreases rows,
    {
        if rows == 0 {
            0
        } else {
            self.rows_energy((rows - 1) as nat) + self.row_energy(rows - 1, self.size)
        }
    }

    /// The energy of every site, added up. Each bond is counted from both of
    /// its ends.
    pub open spec fn internal_energy(self) -> int {
        self.rows_energy(self.size)
    }

    /// The squared energies of the first `n` sites of row `y`, added up.
    pub open spec fn row_squares(self, y: int, n: nat) -> int
        decreases n,
    {
        if n == 0 {
            0
        } else {
            self.row_squares(y, (n - 1) as nat) + self.hamiltonian(n - 1, y) * self.hamiltonian(
                n - 1,
                y,
            )
        }
    }

    /// The squared energies of the sites in the first `rows` rows, added up.
    pub open spec fn rows_squares(self, rows: nat) -> int
        decreases rows,
    {
        if rows == 0 {
            0
        } else {
            self.rows_squares((rows - 1) as nat) + self.row_squares(rows - 1, self.size)
        }
    }

    /// The squared energy of every site, added up, in millionths.
    pub open spec fn squared_energy(self) -> int {
        self.rows_squares(self.size)
    }

    /// The signs of the first `n` spins, added up.
    pub open spec fn spin_sum(self, n: nat) -> int
        decreases n,
    {
        if n == 0 {
            0
        } else {
            self.spin_sum((n - 1) as nat) + self.spins[n - 1].sign()
        }
    }

    /// The signs of all spins, added up.
    pub open spec fn total_spin(self) -> int {
        self.spin_sum(self.sites())
    }
}

impl Grid {
    /// The energies of the site `(x, y)` and of its four neighbours, added
    /// up: the only energies that the spin at `(x, y)` enters.
    pub open spec fn neighbourhood_energy(self, x: int, y: int) -> int {
        self.hamiltonian(x, y) + self.hamiltonian(x - 1, y) + self.hamiltonian(x, y - 1)
            + self.hamiltonian(x + 1, y) + self.hamiltonian(x, y + 1)
    }

    /// By how much turning the spin at `(x, y)` over raises the energy of
    /// its neighbourhood.
    pub open spec fn energy_change(self, x: int, y: int) -> int {
        self.flip(x, y).neighbourhood_energy(x, y) - self.neighbourhood_energy(x, y)
    }

    /// Whether the Metropolis rule lets the spin at `(x, y)` turn over when
    /// the heat bath offers the energy `thermal`: always when the energy does
    /// not rise; otherwise only at a temperature above zero and when the
    /// rise is no more than the offer.
    pub open spec fn accepts(self, x: int, y: int, thermal: int) -> bool {
        let d_energy = self.energy_change(x, y);
        d_energy <= 0 || (self.temperature > 0 && d_energy <= thermal)
    }

    /// The lattice after one attempt at `(x, y)`: that spin turned over if
    /// the move is accepted, and no change at all if it is not.
    pub open spec fn step_at(self, x: int, y: int, thermal: int) -> Grid {
        if self.accepts(x, y, thermal) {
            self.flip(x, y)
        } else {
            self
        }
    }

    /// The lattice after one attempt at each of `sites` in turn, the `k`-th
    /// of them with the offer `thermal[k]`.
    pub open spec fn run(self, sites: Seq<(int, int)>, thermal: Seq<i64>) -> Grid
        decreases sites.len(),
    {
        if sites.len() == 0 {
            self
        } else {
            let (x, y) = sites.last();
            self.run(sites.drop_last(), thermal).step_at(x, y, thermal[sites.len() - 1] as int)
        }
    }

    /// Whether every one of `sites` is given by coordinates in `0..size`.
    pub open spec fn holds(self, sites: Seq<(int, int)>) -> bool {
        forall|k: int|
            0 <= k < sites.len() ==> 0 <= (#[trigger] sites[k]).0 < self.size && 0 <= sites[k].1
                < self.size
    }

    /// Whether `after` is this lattice after one attempt with the offer
    /// `thermal` at some site.
    pub open spec fn steps_to(self, after: Grid, thermal: int) -> bool {
        exists|x: int, y: int|
            0 <= x < self.size && 0 <= y < self.size && after == #[trigger] self.step_at(
                x,
                y,
                thermal,
            )
    }

    /// Whether `after` is this lattice after one attempt at each of some
    /// sites, exactly as many as there are offers in `thermal`.
    pub open spec fn sweeps_to(self, after: Grid, thermal: Seq<i64>) -> bool {
        exists|sites: Seq<(int, int)>|
            sites.len() == thermal.len() && self.holds(sites) && after == #[trigger] self.run(
                sites,
                thermal,
            )
    }
}

impl Grid {
    /// The side in pixels of the picture in which every site is a square of
    /// `scale` by `scale` pixels.
    pub open spec fn picture_side(self, scale: nat) -> nat {
        self.size * scale
    }

    /// The scale of the preview for a given extent in pixels: as many whole
    /// times as the side goes into the extent, and one more.
    pub open spec fn preview_scale(self, extent: nat) -> nat {
        extent / self.size + 1
    }

    /// The byte at place `i` of the picture at the given scale: a channel of
    /// the colour of the site under the pixel that the byte belongs to.
    pub open spec fn picture_byte(self, scale: nat, i: int) -> u8 {
        let side = self.picture_side(scale) as int;
        let pixel = i / 3;
        colour(self.spin_at((pixel % side) / (scale as int), (pixel / side) / (scale as int)), i % 3)
    }

    /// The picture at the given scale: three bytes a pixel, row by row from
    /// the top, the row of sites `y == 0` first.
    pub open spec fn picture(self, scale: nat) -> Seq<u8> {
        Seq::new(
            3 * (self.picture_side(scale) * self.picture_side(scale)),
            |i: int| self.picture_byte(scale, i),
        )
    }
}

/// Where the bytes of a pixel stand: the pixel in column `px` of row `py` of
/// a picture `side` pixels wide has the bytes from `3 * (py * side + px)`
/// on, and dividing such a place by three and by the side gives the pixel
/// back.
pub proof fn lemma_pixel_place(side: int, px: int, py: int, channel: int)
    requires
        0 <= px < side,
        0 <= py < side,
        0 <= channel < 3,
    ensures
        0 <= 3 * (py * side + px) + channel < 3 * (side * side),
        (3 * (py * side + px) + channel) / 3 == py * side + px,
        (3 * (py * side + px) + channel) % 3 == channel,
        (py * side + px) % side == px,
        (py * side + px) / side == py,
{
    let pixel = py * side + px;
    assert(0 <= pixel < side * side) by (nonlinear_arith)
        requires
            pixel == py * side + px,
            0 <= px < side,
            0 <= py < side,
    ;
    lemma_fundamental_div_mod_converse(3 * pixel + channel, 3, pixel, channel);
    lemma_fundamental_div_mod_converse(pixel, side, py, px);
}

/// Turning a spin over twice leaves the lattice as it was.
pub proof fn lemma_flip_twice(g: Grid, x: int, y: int)
    requires
        g.wf(),
    ensures
        g.flip(x, y).flip(x, y) == g,
{
    lemma_site_in_range(g.size, x, y);
    assert(g.flip(x, y).flip(x, y).spins =~= g.spins);
}

/// An attempt at a site is the same under every name the torus gives the
/// site.
pub proof fn lemma_step_wraps(g: Grid, x: int, y: int, thermal: int)
    requires
        g.size >= 1,
    ensures
        g.flip(wrap(x, g.size), wrap(y, g.size)) == g.flip(x, y),
        g.neighbourhood_energy(wrap(x, g.size), wrap(y, g.size)) == g.neighbourhood_energy(x, y),
        g.energy_change(wrap(x, g.size), wrap(y, g.size)) == g.energy_change(x, y),
        g.step_at(wrap(x, g.size), wrap(y, g.size), thermal) == g.step_at(x, y, thermal),
{
    let cx = wrap(x, g.size);
    let cy = wrap(y, g.size);
    lemma_wrap_shift(x, 0, g.size);
    lemma_wrap_shift(y, 0, g.size);
    lemma_neighbourhood_wraps(g, x, y);
    lemma_neighbourhood_wraps(g.flip(x, y), x, y);
}

/// The energy of a neighbourhood is the same under every name the torus
/// gives its middle.
pub proof fn lemma_neighbourhood_wraps(g: Grid, x: int, y: int)
    requires
        g.size >= 1,
    ensures
        g.neighbourhood_energy(wrap(x, g.size), wrap(y, g.size)) == g.neighbourhood_energy(x, y),
{
    let cx = wrap(x, g.size);
    let cy = wrap(y, g.size);
    lemma_wrap_shift(x, 0, g.size);
    lemma_wrap_shift(y, 0, g.size);
    lemma_wrap_shift(x, 1, g.size);
    lemma_wrap_shift(x, -1, g.size);
    lemma_wrap_shift(y, 1, g.size);
    lemma_wrap_shift(y, -1, g.size);
    lemma_hamiltonian_wraps(g, x, y);
    lemma_hamiltonian_wraps(g, x - 1, y);
    lemma_hamiltonian_wraps(g, x + 1, y);
    lemma_hamiltonian_wraps(g, x, y - 1);
    lemma_hamiltonian_wraps(g, x, y + 1);
    lemma_hamiltonian_wraps(g, cx, cy);
    lemma_hamiltonian_wraps(g, cx - 1, cy);
    lemma_hamiltonian_wraps(g, cx + 1, cy);
    lemma_hamiltonian_wraps(g, cx, cy - 1);
    lemma_hamiltonian_wraps(g, cx, cy + 1);
}

/// The energy of a site is never larger in size than four bonds of the
/// greatest strength and the field together.
pub proof fn lemma_site_energy_bound(g: Grid, x: int, y: int)
    requires
        i32::MIN <= g.field <= i32::MAX,
    ensures
        -SITE_ENERGY_LIMIT <= g.hamiltonian(x, y) <= SITE_ENERGY_LIMIT,
{
    let s = g.spin_at(x, y);
    let j = g.interactions(x, y);
    lemma_bond_energy_bound(j.left, s, g.spin_at(x - 1, y));
    lemma_bond_energy_bound(j.up, s, g.spin_at(x, y - 1));
    lemma_bond_energy_bound(j.right, s, g.spin_at(x + 1, y));
    lemma_bond_energy_bound(j.down, s, g.spin_at(x, y + 1));
    let f = g.field;
    let v = s.sign();
    assert(-0x8000_0000 <= v * f <= 0x8000_0000) by (nonlinear_arith)
        requires
            v == 1 || v == -1,
            -0x8000_0000 <= f <= 0x8000_0000,
    ;
}

/// The energy of one bond is at most its greatest strength in size.
pub proof fn lemma_bond_energy_bound(j: i8, a: Spin, b: Spin)
    ensures
        -128000 <= bond_energy(j as int, a, b) <= 128000,
{
    let p = a.sign() * b.sign();
    lemma_sign_product(a, b);
    let k = j as int;
    assert(-128 <= k * p <= 128) by (nonlinear_arith)
        requires
            p == 1 || p == -1,
            -128 <= k <= 127,
    ;
}

/// The energies of `n` sites of a row, added up, are at most `n` times the
/// limit in size.
pub proof fn lemma_row_energy_bound(g: Grid, y: int, n: nat)
    requires
        i32::MIN <= g.field <= i32::MAX,
    ensures
        -(SITE_ENERGY_LIMIT * n) <= g.row_energy(y, n) <= SITE_ENERGY_LIMIT * n,
    decreases n,
{
    if n > 0 {
        lemma_row_energy_bound(g, y, (n - 1) as nat);
        lemma_site_energy_bound(g, n - 1, y);
    }
}

/// The energies of the sites of `rows` rows, added up, are at most the
/// number of those sites times the limit in size.
pub proof fn lemma_rows_energy_bound(g: Grid, rows: nat)
    requires
        i32::MIN <= g.field <= i32::MAX,
    ensures
        -(SITE_ENERGY_LIMIT * (rows * g.size)) <= g.rows_energy(rows) <= SITE_ENERGY_LIMIT * (rows
            * g.size),
    decreases rows,
{
    if rows > 0 {
        lemma_rows_energy_bound(g, (rows - 1) as nat);
        lemma_row_energy_bound(g, rows - 1, g.size);
        assert(rows * g.size == (rows - 1) * g.size + g.size) by (nonlinear_arith);
    } else {
        assert(rows * g.size == 0) by (nonlinear_arith)
            requires
                rows == 0,
        ;
    }
}

/// The internal energy is at most the number of sites times the limit in
/// size.
pub proof fn lemma_energy_bounds(g: Grid)
    requires
        i32::MIN <= g.field <= i32::MAX,
    ensures
        -(SITE_ENERGY_LIMIT * g.sites()) <= g.internal_energy() <= SITE_ENERGY_LIMIT * g.sites(),
{
    lemma_rows_energy_bound(g, g.size);
}

/// A wrapped coordinate lies in `0..size`, and a site in `0..size * size`.
pub proof fn lemma_site_in_range(size: nat, x: int, y: int)
    requires
        size >= 1,
    ensures
        0 <= wrap(x, size) < size,
        0 <= wrap(y, size) < size,
        0 <= site(size, x, y) < size * size,
{
    let s = size as int;
    let a = x % s;
    let b = y % s;
    assert(0 <= a + b * s < s * s) by (nonlinear_arith)
        requires
            0 <= a < s,
            0 <= b < s,
    ;
}

/// Going round the torus first and then moving on by `d` reaches the same
/// place as moving on by `d` at once.
pub proof fn lemma_wrap_shift(c: int, d: int, size: nat)
    requires
        size >= 1,
    ensures
        wrap(wrap(c, size) + d, size) == wrap(c + d, size),
{
    lemma_add_mod_noop_right(d, c, size as int);
}

/// A site has the same energy under every name the torus gives it: the
/// energy at the wrapped coordinates is the energy at the coordinates.
pub proof fn lemma_hamiltonian_wraps(g: Grid, x: int, y: int)
    requires
        g.size >= 1,
    ensures
        g.hamiltonian(wrap(x, g.size), wrap(y, g.size)) == g.hamiltonian(x, y),
        g.spin_at(wrap(x, g.size), wrap(y, g.size)) == g.spin_at(x, y),
        g.interactions(wrap(x, g.size), wrap(y, g.size)) == g.interactions(x, y),
{
    lemma_wrap_shift(x, 0, g.size);
    lemma_wrap_shift(x, 1, g.size);
    lemma_wrap_shift(x, -1, g.size);
    lemma_wrap_shift(y, 0, g.size);
    lemma_wrap_shift(y, 1, g.size);
    lemma_wrap_shift(y, -1, g.size);
}

} // verus!
