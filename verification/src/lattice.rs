//! The lattice itself: construction, addressing, energy and the Metropolis
//! update.

use crate::coupling::{
    ConstructionError, Interactions, InterationsStorage, LatticeInitialState, LatticeType,
};
use crate::fraction::Fraction;
use crate::grid::{
    bond_energy, lemma_energy_bounds, lemma_flip_twice, lemma_hamiltonian_wraps,
    lemma_pixel_place, lemma_site_in_range, lemma_step_wraps, site, wrap, Grid,
};
use crate::render::{image_from_rgb, image_height, image_rgb, image_width, push_colour, PixelBuffer};
use crate::random::{below, coin};
use crate::spin::{lemma_sign_product, Spin};
use crate::{MILLI, SITE_ENERGY_LIMIT};
use vstd::prelude::*;

verus! {

/// A square lattice of spins on a torus, with the bonds between neighbours,
/// a temperature and a magnetic field.
#[derive(Debug)]
pub struct Lattice {
    state: Vec<Spin>,
    interations: Vec<InterationsStorage>,
    size: usize,
    temperature: i32,
    // magnetic field B, z component
    magnetic_field: i32,
}

impl View for Lattice {
    type V = Grid;

    closed spec fn view(&self) -> Grid {
        Grid {
            size: self.size as nat,
            spins: self.state@,
            bonds: self.interations@,
            temperature: self.temperature as int,
            field: self.magnetic_field as int,
        }
    }
}

/// The largest square the energy of one site can have, in millionths.
const SQUARE_LIMIT: i128 = 4_613_885_303_826_939_904;

/// A side length whose square is a length fits a signed coordinate.
proof fn lemma_side_fits(size: usize, len: usize)
    requires
        len == size * size,
    ensures
        size <= isize::MAX,
{
    if size > isize::MAX {
        assert(size * size >= 3 * size) by (nonlinear_arith)
            requires
                size >= 3,
        ;
    }
}

/// The energy of one bond of strength `j` between the spins `a` and `b`.
fn bond_term(j: i8, a: Spin, b: Spin) -> (e: i64)
    ensures
        e == bond_energy(j as int, a, b),
        -128000 <= e <= 128000,
{
    proof {
        lemma_sign_product(a, b);
    }
    let p: i64 = a.times(b) as i64;
    let jp: i64 = if p == 1 { j as i64 } else { -(j as i64) };
    assert(jp == j * (a.sign() * b.sign())) by (nonlinear_arith)
        requires
            a.sign() * b.sign() == p,
            p == 1 || p == -1,
            jp == (if p == 1 { j as int } else { -(j as int) }),
    ;
    -(1000 * jp)
}

/// The stored bonds of `count` sites of a lattice of the given kind.
fn draw_interactions(count: usize, lattice_type: LatticeType) -> (bonds: Vec<InterationsStorage>)
    requires
        lattice_type.valid(),
    ensures
        bonds.len() == count,
        forall|i: int| 0 <= i < count ==> lattice_type.admits(#[trigger] bonds[i]),
{
    let mut bonds = Vec::with_capacity(count);
    let mut i: usize = 0;
    while i < count
        invariant
            lattice_type.valid(),
            i <= count,
            bonds.len() == i,
            forall|k: int| 0 <= k < i ==> lattice_type.admits(#[trigger] bonds[k]),
        decreases count - i,
    {
        let bond = match lattice_type {
            LatticeType::Ferromagnetic => InterationsStorage::ferromagnetic(),
            LatticeType::Antiferromagnetic => InterationsStorage::antiferromagnetic(),
            LatticeType::SpinGlass { p_antiferro } => InterationsStorage::spin_glass(p_antiferro),
        };
        bonds.push(bond);
        i += 1;
    }
    bonds
}

impl Lattice {
    #[verifier::type_invariant]
    spec fn inv(self) -> bool {
        &&& self.size >= 1
        &&& self.state.len() == self.size * self.size
        &&& self.interations.len() == self.size * self.size
    }

    /// Whether `l` is a lattice of side `size` with the given temperature and
    /// field, in which every site has its spin and its bonds are of the given
    /// kind.
    pub open spec fn built(
        l: Grid,
        size: usize,
        temperature: i32,
        magnetic_field: i32,
        lattice_type: LatticeType,
    ) -> bool {
        &&& l.wf()
        &&& l.size == size
        &&& l.temperature == temperature
        &&& l.field == magnetic_field
        &&& l.bonded(lattice_type)
    }

    /// Which error, if any, the parameters of a lattice give: a side of zero
    /// is refused first, then a chance outside zero to one.
    pub open spec fn refusal(size: usize, lattice_type: LatticeType) -> Option<ConstructionError> {
        if size == 0 {
            Some(ConstructionError::InvalidSize)
        } else if !lattice_type.valid() {
            Some(ConstructionError::InvalidProbability)
        } else {
            None
        }
    }

    /// A lattice whose spins are set as `initial_state` says.
    pub fn new(
        size: usize,
        temperature: i32,
        magnetic_field: i32,
        initial_state: LatticeInitialState,
        lattice_type: LatticeType,
    ) -> (r: Result<Lattice, ConstructionError>)
        requires
            size * size <= usize::MAX,
        ensures
            match r {
                Ok(l) => {
                    &&& Self::refusal(size, lattice_type) is None
                    &&& Self::built(l@, size, temperature, magnetic_field, lattice_type)
                    &&& initial_state == LatticeInitialState::AllUp ==> l@.uniform(Spin::Up)
                    &&& initial_state == LatticeInitialState::AllDown ==> l@.uniform(Spin::Down)
                },
                Err(e) => Self::refusal(size, lattice_type) == Some(e),
            },
    {
        match initial_state {
            LatticeInitialState::Random => Lattice::new_random(
                size,
                temperature,
                magnetic_field,
                lattice_type,
            ),
            LatticeInitialState::AllUp => Lattice::new_uniform(
                size,
                temperature,
                magnetic_field,
                Spin::Up,
                lattice_type,
            ),
            LatticeInitialState::AllDown => Lattice::new_uniform(
                size,
                temperature,
                magnetic_field,
                Spin::Down,
                lattice_type,
            ),
        }
    }

    /// Lattice with random initial state: every spin is set by a fair coin of
    /// its own, so nothing is promised of the spins but that each site has
    /// one.
    pub fn new_random(
        size: usize,
        temperature: i32,
        magnetic_field: i32,
        lattice_type: LatticeType,
    ) -> (r: Result<Lattice, ConstructionError>)
        requires
            size * size <= usize::MAX,
        ensures
            match r {
                Ok(l) => {
                    &&& Self::refusal(size, lattice_type) is None
                    &&& Self::built(l@, size, temperature, magnetic_field, lattice_type)
                },
                Err(e) => Self::refusal(size, lattice_type) == Some(e),
            },
    {
        if size == 0 {
            return Err(ConstructionError::InvalidSize);
        }
        if !lattice_type.is_valid() {
            return Err(ConstructionError::InvalidProbability);
        }
        let mut spins = Vec::with_capacity(size * size);

        let mut i: usize = 0;
        while i < size * size
            invariant
                size * size <= usize::MAX,
                i <= size * size,
                spins.len() == i,
            decreases size * size - i,
        {
            let spin = Spin::from_draw(coin());

            spins.push(spin);
            i += 1;
        }

        let interations = draw_interactions(size * size, lattice_type);

        Ok(Lattice { state: spins, interations, size, temperature, magnetic_field })
    }

    /// Lattice with uniform initial state: every spin is `spin`.
    pub fn new_uniform(
        size: usize,
        temperature: i32,
        magnetic_field: i32,
        spin: Spin,
        lattice_type: LatticeType,
    ) -> (r: Result<Lattice, ConstructionError>)
        requires
            size * size <= usize::MAX,
        ensures
            match r {
                Ok(l) => {
                    &&& Self::refusal(size, lattice_type) is None
                    &&& Self::built(l@, size, temperature, magnetic_field, lattice_type)
                    &&& l@.uniform(spin)
                },
                Err(e) => Self::refusal(size, lattice_type) == Some(e),
            },
    {
        if size == 0 {
            return Err(ConstructionError::InvalidSize);
        }
        if !lattice_type.is_valid() {
            return Err(ConstructionError::InvalidProbability);
        }
        let mut spins = Vec::with_capacity(size * size);

        let mut i: usize = 0;
        while i < size * size
            invariant
                size * size <= usize::MAX,
                i <= size * size,
                spins.len() == i,
                forall|k: int| 0 <= k < i ==> spins[k] == spin,
            decreases size * size - i,
        {
            spins.push(spin);
            i += 1;
        }

        let interations = draw_interactions(size * size, lattice_type);

        let lattice = Lattice { state: spins, interations, size, temperature, magnetic_field };
        assert(lattice@.spins =~= Seq::new(lattice@.sites(), |i: int| spin));
        Ok(lattice)
    }

    /// The side length.
    pub fn size(&self) -> (n: usize)
        ensures
            n == self@.size,
            self@.wf(),
    {
        proof {
            use_type_invariant(self);
        }
        self.size
    }

    /// The temperature, in thousandths.
    pub fn temperature(&self) -> (t: i32)
        ensures
            t == self@.temperature,
    {
        self.temperature
    }

    /// The magnetic field, in thousandths.
    pub fn magnetic_field(&self) -> (b: i32)
        ensures
            b == self@.field,
    {
        self.magnetic_field
    }

    /// Sets the temperature, in thousandths. Nothing else changes.
    pub fn set_temperature(&mut self, temperature: i32)
        ensures
            final(self)@ == (Grid { temperature: temperature as int, ..old(self)@ }),
            final(self)@.wf(),
    {
        proof {
            use_type_invariant(&*self);
        }
        self.temperature = temperature;
    }

    /// Sets the magnetic field, in thousandths. Nothing else changes.
    pub fn set_magnetic_field(&mut self, magnetic_field: i32)
        ensures
            final(self)@ == (Grid { field: magnetic_field as int, ..old(self)@ }),
            final(self)@.wf(),
    {
        proof {
            use_type_invariant(&*self);
        }
        self.magnetic_field = magnetic_field;
    }

    /// A coordinate brought into `0..size` by going round the torus.
    fn coordinate(&self, c: isize) -> (r: isize)
        ensures
            r == wrap(c as int, self@.size),
            0 <= r < self@.size,
            self@.size <= isize::MAX,
    {
        proof {
            use_type_invariant(self);
            lemma_side_fits(self.size, self.state.len());
        }
        c.checked_rem_euclid(self.size as isize).unwrap()
    }

    /// The place of the site `(x, y)` in the row-by-row order. Coordinates go
    /// round the torus, so any pair of integers names a site.
    pub fn index(&self, x: isize, y: isize) -> (i: usize)
        ensures
            i == site(self@.size, x as int, y as int),
            i < self@.size * self@.size,
            self@.wf(),
    {
        proof {
            use_type_invariant(self);
            lemma_site_in_range(self.size as nat, x as int, y as int);
        }
        let column: usize = self.coordinate(x) as usize;
        let row: usize = self.coordinate(y) as usize;
        assert(row * self.size <= site(self.size as nat, x as int, y as int)) by (nonlinear_arith)
            requires
                row == wrap(y as int, self.size as nat),
                0 <= wrap(x as int, self.size as nat),
                site(self.size as nat, x as int, y as int) == wrap(x as int, self.size as nat) + wrap(
                    y as int,
                    self.size as nat,
                ) * self.size,
        ;
        column + row * self.size
    }

    /// The spin at `(x, y)`.
    pub fn get(&self, x: isize, y: isize) -> (s: Spin)
        ensures
            s == self@.spin_at(x as int, y as int),
    {
        let i = self.index(x, y);
        proof {
            use_type_invariant(self);
        }
        self.state[i]
    }

    /// The four bonds that meet at `(x, y)`.
    pub fn get_interactions(&self, x: isize, y: isize) -> (j: Interactions)
        ensures
            j == self@.interactions(x as int, y as int),
    {
        let column = self.coordinate(x);
        let row = self.coordinate(y);
        proof {
            use_type_invariant(self);
            lemma_hamiltonian_wraps(self@, x as int, y as int);
        }
        let current = &self.interations[self.index(column, row)];
        let right = &self.interations[self.index(column + 1, row)];
        let bottom = &self.interations[self.index(column, row + 1)];

        Interactions { up: current.up, left: current.left, down: bottom.up, right: right.left }
    }

    /// Turns the spin at `(x, y)` over. Nothing else changes.
    pub fn flip(&mut self, x: isize, y: isize)
        ensures
            final(self)@ == old(self)@.flip(x as int, y as int),
            final(self)@.wf(),
    {
        let i = self.index(x, y);
        proof {
            use_type_invariant(&*self);
        }
        let turned = self.state[i].flipped();
        self.state[i] = turned;
        proof {
            use_type_invariant(&*self);
        }
    }

    /// The energy of every site, added up, in thousandths.
    pub fn internal_energy(&self) -> (energy: i128)
        ensures
            energy == self@.internal_energy(),
    {
        proof {
            use_type_invariant(self);
            lemma_side_fits(self.size, self.state.len());
        }
        let mut energy: i128 = 0;

        let s = self.size as isize;
        let ghost mut seen: int = 0;

        let mut y: isize = 0;
        while y < s
            invariant
                s == self.size,
                self.size * self.size <= usize::MAX,
                0 <= y <= s,
                seen == y * s,
                energy == self@.rows_energy(y as nat),
                -(SITE_ENERGY_LIMIT * seen) <= energy <= SITE_ENERGY_LIMIT * seen,
            decreases s - y,
        {
            assert(seen + s <= s * s && (y + 1) * s == seen + s) by (nonlinear_arith)
                requires
                    seen == y * s,
                    0 <= y < s,
            ;
            let mut x: isize = 0;
            while x < s
                invariant
                    s == self.size,
                    0 <= y < s,
                    0 <= x <= s,
                    seen + s <= usize::MAX,
                    energy == self@.rows_energy(y as nat) + self@.row_energy(y as int, x as nat),
                    -(SITE_ENERGY_LIMIT * (seen + x)) <= energy <= SITE_ENERGY_LIMIT * (seen + x),
                decreases s - x,
            {
                energy += self.hamiltonian(x, y) as i128;
                x += 1;
            }
            proof {
                seen = seen + s;
            }
            y += 1;
        }

        energy
    }

    /// The heat capacity as this lattice defines it: the squared energies of
    /// all sites added up, less the internal energy, over the number of
    /// sites. With energies in thousandths the squares are in millionths, so
    /// the numerator is in millionths and the denominator is a million times
    /// the number of sites.
    pub fn heat_capacity(&self) -> (c: Fraction)
        ensures
            c.numerator == self@.squared_energy() - MILLI * self@.internal_energy(),
            c.denominator == MILLI * MILLI * self@.sites(),
            c.denominator > 0,
    {
        proof {
            use_type_invariant(self);
            lemma_side_fits(self.size, self.state.len());
        }
        let mut energy: i128 = 0;

        let s = self.size as isize;
        let ghost mut seen: int = 0;

        let mut y: isize = 0;
        while y < s
            invariant
                s == self.size,
                self.size * self.size <= usize::MAX,
                0 <= y <= s,
                seen == y * s,
                energy == self@.rows_squares(y as nat),
                0 <= energy <= SQUARE_LIMIT * seen,
            decreases s - y,
        {
            assert(seen + s <= s * s && (y + 1) * s == seen + s) by (nonlinear_arith)
                requires
                    seen == y * s,
                    0 <= y < s,
            ;
            let mut x: isize = 0;
            while x < s
                invariant
                    s == self.size,
                    0 <= y < s,
                    0 <= x <= s,
                    seen + s <= usize::MAX,
                    energy == self@.rows_squares(y as nat) + self@.row_squares(y as int, x as nat),
                    0 <= energy <= SQUARE_LIMIT * (seen + x),
                decreases s - x,
            {
                let h = self.hamiltonian(x, y) as i128;
                assert(0 <= h * h <= 4_613_885_303_826_939_904) by (nonlinear_arith)
                    requires
                        -2_147_995_648 <= h <= 2_147_995_648,
                ;
                energy += h * h;
                x += 1;
            }
            proof {
                seen = seen + s;
            }
            y += 1;
        }

        let internal = self.internal_energy();
        proof {
            lemma_energy_bounds(self@);
        }
        assert(self.size * self.size > 0) by (nonlinear_arith)
            requires
                self.size >= 1,
        ;
        Fraction {
            numerator: energy - 1000 * internal,
            denominator: 1_000_000 * (self.state.len() as i128),
        }
    }

    /// The mean of the spins: their signs added up, over the number of sites.
    pub fn magnetisation(&self) -> (m: Fraction)
        ensures
            m.numerator == self@.total_spin(),
            m.denominator == self@.sites(),
            m.denominator > 0,
    {
        proof {
            use_type_invariant(self);
        }
        let mut total: i128 = 0;
        for k in 0..self.state.len()
            invariant
                total == self@.spin_sum(k as nat),
                -k <= total <= k,
        {
            total += self.state[k].value() as i128;
        }
        assert(self.size * self.size > 0) by (nonlinear_arith)
            requires
                self.size >= 1,
        ;
        Fraction { numerator: total, denominator: self.state.len() as i128 }
    }

    /// The energy of the site `(x, y)`, in thousandths: for each of its four
    /// bonds the strength times the product of the two spins, taken
    /// negative, and the spin times the field, taken negative.
    pub fn hamiltonian(&self, x: isize, y: isize) -> (energy: i64)
        ensures
            energy == self@.hamiltonian(x as int, y as int),
            -SITE_ENERGY_LIMIT <= energy <= SITE_ENERGY_LIMIT,
    {
        let column = self.coordinate(x);
        let row = self.coordinate(y);
        proof {
            lemma_hamiltonian_wraps(self@, x as int, y as int);
        }
        let mut energy: i64 = 0;

        // Spin interaction component
        let spin = self.get(column, row);

        let interactions = self.get_interactions(column, row);

        energy += bond_term(interactions.left, spin, self.get(column - 1, row));
        energy += bond_term(interactions.up, spin, self.get(column, row - 1));
        energy += bond_term(interactions.right, spin, self.get(column + 1, row));
        energy += bond_term(interactions.down, spin, self.get(column, row + 1));

        // Magnetic component
        let s: i64 = spin.value() as i64;
        let b: i64 = self.magnetic_field as i64;
        let magnetic: i64 = if s == 1 { b } else { -b };
        assert(magnetic == spin.sign() * self@.field) by (nonlinear_arith)
            requires
                s == spin.sign(),
                s == 1 || s == -1,
                b == self@.field,
                magnetic == (if s == 1 { b as int } else { -(b as int) }),
        ;
        energy -= magnetic;

        energy
    }

    /// The energies of the site `(x, y)` and of its four neighbours, added
    /// up.
    fn neighbourhood(&self, x: isize, y: isize) -> (energy: i64)
        requires
            isize::MIN < x < isize::MAX,
            isize::MIN < y < isize::MAX,
        ensures
            energy == self@.neighbourhood_energy(x as int, y as int),
            -5 * SITE_ENERGY_LIMIT <= energy <= 5 * SITE_ENERGY_LIMIT,
    {
        let mut energy = self.hamiltonian(x, y);

        energy += self.hamiltonian(x - 1, y);
        energy += self.hamiltonian(x, y - 1);
        energy += self.hamiltonian(x + 1, y);
        energy += self.hamiltonian(x, y + 1);

        energy
    }

    /// One Metropolis attempt at the site `(x, y)`, with `thermal` the energy
    /// that the heat bath offers to this attempt, in thousandths. The spin is
    /// turned over and the rise in energy of its neighbourhood is taken. If
    /// the energy rose, and the temperature is zero or below or the rise is
    /// more than the offer, the spin is turned back.
    pub fn step_at(&mut self, x: isize, y: isize, thermal: i64)
        ensures
            final(self)@ == old(self)@.step_at(x as int, y as int, thermal as int),
            final(self)@.wf(),
    {
        let column = self.coordinate(x);
        let row = self.coordinate(y);
        proof {
            use_type_invariant(&*self);
            lemma_step_wraps(self@, x as int, y as int, thermal as int);
            lemma_flip_twice(self@, column as int, row as int);
        }

        let mut d_energy = -self.neighbourhood(column, row);

        self.flip(column, row);

        d_energy += self.neighbourhood(column, row);

        // internal energy increases with this change, accept only if the heat bath pays for it
        if d_energy > 0 && (self.temperature <= 0 || thermal < d_energy) {
            // failed dice roll, undo flip
            self.flip(column, row);
        }
        proof {
            use_type_invariant(&*self);
        }
    }

    /// One Metropolis attempt at a site drawn uniformly from the lattice,
    /// with `thermal` the energy that the heat bath offers to it. Which site
    /// is drawn is not determined.
    pub fn step(&mut self, thermal: i64)
        ensures
            old(self)@.steps_to(final(self)@, thermal as int),
            final(self)@.wf(),
    {
        proof {
            use_type_invariant(&*self);
            lemma_side_fits(self.size, self.state.len());
        }
        let s = self.size as isize;
        let x = below(s);
        let y = below(s);

        self.step_at(x, y, thermal);
    }

    /// One sweep: as many attempts as the lattice has sites, each at a site
    /// drawn on its own, so that a site may be tried more than once or not at
    /// all. The `k`-th attempt is offered the energy `thermal[k]`.
    pub fn epoch(&mut self, thermal: &Vec<i64>)
        requires
            thermal.len() == old(self)@.sites(),
        ensures
            old(self)@.sweeps_to(final(self)@, thermal@),
            final(self)@.wf(),
    {
        proof {
            use_type_invariant(&*self);
        }
        let ghost before = self@;
        let ghost mut sites: Seq<(int, int)> = Seq::empty();
        let mut k: usize = 0;
        while k < thermal.len()
            invariant
                k <= thermal.len(),
                sites.len() == k,
                before.holds(sites),
                self@ == before.run(sites, thermal@),
                self@.size == before.size,
                self@.wf(),
            decreases thermal.len() - k,
        {
            let ghost now = self@;
            self.step(thermal[k]);
            proof {
                let (x, y) = choose|x: int, y: int|
                    0 <= x < now.size && 0 <= y < now.size && self@ == #[trigger] now.step_at(
                        x,
                        y,
                        thermal[k as int] as int,
                    );
                let longer = sites.push((x, y));
                assert(longer.drop_last() =~= sites);
                assert(longer.last() == (x, y));
                sites = longer;
            }
            k += 1;
        }
    }

    /// The picture in which every site is a square of `scale` by `scale`
    /// pixels.
    fn render(&self, scale: usize) -> (rgb: Vec<u8>)
        requires
            scale >= 1,
            3 * (self@.picture_side(scale as nat) * self@.picture_side(scale as nat)) <= usize::MAX,
        ensures
            rgb@ == self@.picture(scale as nat),
            self@.picture_side(scale as nat) <= usize::MAX,
    {
        proof {
            use_type_invariant(self);
            lemma_side_fits(self.size, self.state.len());
        }
        let ghost wide = self@.picture_side(scale as nat) as int;
        assert(wide <= wide * wide && wide >= 1) by (nonlinear_arith)
            requires
                wide == self.size * scale,
                self.size >= 1,
                scale >= 1,
        ;
        let side: usize = self.size * scale;

        let mut rgb = Vec::with_capacity(3 * (side * side));

        let mut py: usize = 0;
        while py < side
            invariant
                scale >= 1,
                self.size >= 1,
                side == self@.picture_side(scale as nat),
                3 * (side * side) <= usize::MAX,
                self@.size <= isize::MAX,
                py <= side,
                rgb.len() == 3 * (py * side),
                forall|i: int| 0 <= i < rgb.len() ==> rgb[i] == self@.picture_byte(scale as nat, i),
            decreases side - py,
        {
            let mut px: usize = 0;
            let ghost row = py * side;
            assert(row + side <= side * side && (py + 1) * side == row + side) by (nonlinear_arith)
                requires
                    row == py * side,
                    py < side,
            ;
            while px < side
                invariant
                    scale >= 1,
                    self.size >= 1,
                    side == self@.picture_side(scale as nat),
                    3 * (side * side) <= usize::MAX,
                    self@.size <= isize::MAX,
                    py < side,
                    px <= side,
                    row == py * side,
                    row + side <= side * side,
                    rgb.len() == 3 * (row + px),
                    forall|i: int|
                        0 <= i < rgb.len() ==> rgb[i] == self@.picture_byte(scale as nat, i),
                decreases side - px,
            {
                let x = px / scale;
                let y = py / scale;
                proof {
                    lemma_pixel_place(side as int, px as int, py as int, 0);
                    lemma_pixel_place(side as int, px as int, py as int, 1);
                    lemma_pixel_place(side as int, px as int, py as int, 2);
                    assert(x < self.size && y < self.size) by (nonlinear_arith)
                        requires
                            x == px / scale,
                            y == py / scale,
                            px < self.size * scale,
                            py < self.size * scale,
                            scale >= 1,
                    ;
                }
                let ghost before = rgb@;
                push_colour(&mut rgb, self.get(x as isize, y as isize));
                assert forall|i: int| 0 <= i < rgb.len() implies rgb[i] == self@.picture_byte(
                    scale as nat,
                    i,
                ) by {
                    if i < before.len() {
                        assert(rgb[i] == before[i]);
                    }
                }
                px += 1;
            }
            py += 1;
        }

        assert(rgb@ =~= self@.picture(scale as nat));
        rgb
    }

    /// The preview for a target extent in pixels, as plain values: the scale
    /// is as many whole times as the side goes into the extent, and one more;
    /// every site is a square of that many pixels each way, blue for `Up` and
    /// red for `Down`.
    pub fn render_preview(&self, target_extent: usize) -> (picture: PixelBuffer)
        requires
            3 * (self@.picture_side(self@.preview_scale(target_extent as nat)) * self@.picture_side(
                self@.preview_scale(target_extent as nat),
            )) <= usize::MAX,
        ensures
            picture.width == self@.picture_side(self@.preview_scale(target_extent as nat)),
            picture.height == picture.width,
            picture.rgb_bytes@ == self@.picture(self@.preview_scale(target_extent as nat)),
    {
        proof {
            use_type_invariant(self);
        }
        let ghost scaled = self@.preview_scale(target_extent as nat);
        assert(scaled <= self.size * scaled) by (nonlinear_arith)
            requires
                self.size >= 1,
                scaled >= 0,
        ;
        assert(self.size * scaled <= (self.size * scaled) * (self.size * scaled))
            by (nonlinear_arith)
            requires
                self.size >= 1,
                scaled >= 1,
        ;
        let scale = target_extent / self.size + 1;

        let rgb = self.render(scale);

        PixelBuffer { width: self.size * scale, height: self.size * scale, rgb_bytes: rgb }
    }

    /// The preview for the space that is available, in pixels each way, as
    /// an image for `egui`.
    pub fn as_image(&self, available_space: usize) -> (image: egui::ColorImage)
        requires
            3 * (self@.picture_side(self@.preview_scale(available_space as nat))
                * self@.picture_side(self@.preview_scale(available_space as nat))) <= usize::MAX,
        ensures
            image_width(image) == self@.picture_side(self@.preview_scale(available_space as nat)),
            image_height(image) == image_width(image),
            image_rgb(image) == self@.picture(self@.preview_scale(available_space as nat)),
    {
        let picture = self.render_preview(available_space);
        assert(picture.width * picture.height * 3 == 3 * (picture.width * picture.width))
            by (nonlinear_arith)
            requires
                picture.width == picture.height,
        ;

        image_from_rgb(picture.width, picture.height, &picture.rgb_bytes)
    }

    /// The picture with one pixel a site, for writing out, and the side
    /// length.
    pub fn as_image_raw(&self) -> (raw: (Vec<u8>, usize))
        requires
            3 * (self@.size * self@.size) <= usize::MAX,
        ensures
            raw.0@ == self@.picture(1),
            raw.1 == self@.size,
    {
        assert(self@.size * 1 == self@.size) by (nonlinear_arith);
        let rgb = self.render(1);

        (rgb, self.size)
    }
}

} // verus!
