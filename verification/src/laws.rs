//! What holds of every lattice, proved over the model.

use crate::coupling::{InterationsStorage, LatticeType};
use crate::fraction::Fraction;
use crate::grid::{lemma_pixel_place, lemma_site_in_range, site, Grid};
use crate::render::colour;
use crate::spin::{lemma_sign_product, Spin};
use crate::MILLI;
use vstd::arithmetic::div_mod::{lemma_mod_add_multiples_vanish, lemma_mod_sub_multiples_vanish};
use vstd::prelude::*;

verus! {

/// The signs of the first `n` spins of a uniform lattice add up to `n` times
/// the sign of its spin.
proof fn lemma_uniform_spin_sum(g: Grid, spin: Spin, n: nat)
    requires
        g.uniform(spin),
        n <= g.sites(),
    ensures
        g.spin_sum(n) == spin.sign() * n,
    decreases n,
{
    if n > 0 {
        lemma_uniform_spin_sum(g, spin, (n - 1) as nat);
        assert(spin.sign() * n == spin.sign() * (n - 1) + spin.sign()) by (nonlinear_arith);
    } else {
        assert(spin.sign() * n == 0) by (nonlinear_arith)
            requires
                n == 0,
        ;
    }
}

/// The magnetisation of a lattice whose spins are all alike is the sign of
/// that spin: one for a lattice of `Up`, minus one for a lattice of `Down`.
pub proof fn lemma_uniform_magnetisation(g: Grid, spin: Spin, m: Fraction)
    requires
        g.wf(),
        g.uniform(spin),
        m.numerator == g.total_spin(),
        m.denominator == g.sites(),
    ensures
        m.is_whole(spin.sign()),
        spin == Spin::Up ==> m.is_whole(1),
        spin == Spin::Down ==> m.is_whole(-1),
{
    lemma_uniform_spin_sum(g, spin, g.sites());
    assert(g.size * g.size > 0) by (nonlinear_arith)
        requires
            g.size >= 1,
    ;
}

/// Going once round the torus in either direction comes back to the same
/// site.
pub proof fn lemma_index_periodic(size: nat, x: int, y: int)
    requires
        size >= 1,
    ensures
        site(size, x, y) == site(size, x + size, y),
        site(size, x, y) == site(size, x, y + size),
        site(size, x, y) == site(size, x - size, y),
        site(size, x, y) == site(size, x, y - size),
{
    lemma_mod_add_multiples_vanish(x, size as int);
    lemma_mod_add_multiples_vanish(y, size as int);
    lemma_mod_sub_multiples_vanish(x, size as int);
    lemma_mod_sub_multiples_vanish(y, size as int);
}

/// With ferromagnetic bonds and no field no site has an energy below that of
/// four aligned bonds, and in a uniform lattice every site has exactly that
/// energy.
proof fn lemma_ferromagnetic_site(g: Grid, x: int, y: int)
    requires
        g.wf(),
        g.ferromagnetic(),
        g.field == 0,
    ensures
        g.hamiltonian(x, y) >= -4 * MILLI,
        forall|spin: Spin| g.uniform(spin) ==> g.hamiltonian(x, y) == -4 * MILLI,
{
    lemma_site_in_range(g.size, x, y);
    lemma_site_in_range(g.size, x - 1, y);
    lemma_site_in_range(g.size, x + 1, y);
    lemma_site_in_range(g.size, x, y - 1);
    lemma_site_in_range(g.size, x, y + 1);
    let s = g.spin_at(x, y);
    let j = g.interactions(x, y);
    assert(LatticeType::Ferromagnetic.admits(g.bonds[site(g.size, x, y)]));
    assert(LatticeType::Ferromagnetic.admits(g.bonds[site(g.size, x + 1, y)]));
    assert(LatticeType::Ferromagnetic.admits(g.bonds[site(g.size, x, y + 1)]));
    assert(j.up == 1 && j.left == 1 && j.down == 1 && j.right == 1);
    lemma_sign_product(s, g.spin_at(x - 1, y));
    lemma_sign_product(s, g.spin_at(x + 1, y));
    lemma_sign_product(s, g.spin_at(x, y - 1));
    lemma_sign_product(s, g.spin_at(x, y + 1));
    assert(s.sign() * g.field == 0) by (nonlinear_arith)
        requires
            g.field == 0,
    ;
}

/// With ferromagnetic bonds and no field the energies of `n` sites of a row
/// add up to no less than `n` times that of four aligned bonds, and in a
/// uniform lattice to exactly that.
proof fn lemma_ferromagnetic_row(g: Grid, y: int, n: nat)
    requires
        g.wf(),
        g.ferromagnetic(),
        g.field == 0,
    ensures
        g.row_energy(y, n) >= -4000 * n,
        forall|spin: Spin| g.uniform(spin) ==> g.row_energy(y, n) == -4000 * n,
    decreases n,
{
    if n > 0 {
        lemma_ferromagnetic_row(g, y, (n - 1) as nat);
        lemma_ferromagnetic_site(g, n - 1, y);
    }
}

/// The same of the first `rows` rows.
proof fn lemma_ferromagnetic_rows(g: Grid, rows: nat)
    requires
        g.wf(),
        g.ferromagnetic(),
        g.field == 0,
    ensures
        g.rows_energy(rows) >= -4000 * (rows * g.size),
        forall|spin: Spin| g.uniform(spin) ==> g.rows_energy(rows) == -4000 * (rows * g.size),
    decreases rows,
{
    if rows > 0 {
        lemma_ferromagnetic_rows(g, (rows - 1) as nat);
        lemma_ferromagnetic_row(g, rows - 1, g.size);
        assert(rows * g.size == (rows - 1) * g.size + g.size) by (nonlinear_arith);
    } else {
        assert(rows * g.size == 0) by (nonlinear_arith)
            requires
                rows == 0,
        ;
    }
}

/// With ferromagnetic bonds and no field, a lattice whose spins are all
/// alike has the lowest internal energy that any spins on the same lattice
/// can have: four aligned bonds for every site.
pub proof fn lemma_aligned_energy_is_least(aligned: Grid, other: Grid, spin: Spin)
    requires
        aligned.wf(),
        other.wf(),
        aligned.ferromagnetic(),
        aligned.field == 0,
        aligned.uniform(spin),
        other.size == aligned.size,
        other.bonds == aligned.bonds,
        other.field == aligned.field,
    ensures
        aligned.internal_energy() == -4 * MILLI * aligned.sites(),
        aligned.internal_energy() <= other.internal_energy(),
{
    lemma_ferromagnetic_rows(aligned, aligned.size);
    lemma_ferromagnetic_rows(other, other.size);
    let sites = aligned.sites();
    assert(-4 * MILLI * sites == -4000 * sites) by (nonlinear_arith)
        requires
            MILLI == 1000,
    ;
}

/// An attempt that does not raise the energy turns over exactly one spin,
/// the one at the site of the attempt, whatever the heat bath offers.
pub proof fn lemma_downhill_step_flips_one(g: Grid, x: int, y: int, thermal: int)
    requires
        g.wf(),
        g.energy_change(x, y) <= 0,
    ensures
        g.step_at(x, y, thermal).spins.len() == g.spins.len(),
        g.step_at(x, y, thermal).spins[site(g.size, x, y)] != g.spins[site(g.size, x, y)],
        forall|i: int|
            0 <= i < g.spins.len() && i != site(g.size, x, y) ==> g.step_at(x, y, thermal).spins[i]
                == g.spins[i],
        g.step_at(x, y, thermal) == g.flip(x, y),
{
    lemma_site_in_range(g.size, x, y);
}

/// An attempt that is refused leaves the lattice as it was.
pub proof fn lemma_refused_step_changes_nothing(g: Grid, x: int, y: int, thermal: int)
    requires
        !g.accepts(x, y, thermal),
    ensures
        g.step_at(x, y, thermal) == g,
{
}

/// Attempts that are all refused, however many, leave the lattice as it
/// was.
pub proof fn lemma_refused_run_changes_nothing(g: Grid, sites: Seq<(int, int)>, thermal: Seq<i64>)
    requires
        forall|k: int|
            0 <= k < sites.len() ==> !g.accepts(
                (#[trigger] sites[k]).0,
                sites[k].1,
                thermal[k] as int,
            ),
    ensures
        g.run(sites, thermal) == g,
    decreases sites.len(),
{
    if sites.len() > 0 {
        let fewer = sites.drop_last();
        assert forall|k: int| 0 <= k < fewer.len() implies !g.accepts(
            (#[trigger] fewer[k]).0,
            fewer[k].1,
            thermal[k] as int,
        ) by {
            assert(fewer[k] == sites[k]);
        }
        lemma_refused_run_changes_nothing(g, fewer, thermal);
        let last = sites[sites.len() - 1];
        assert(!g.accepts(last.0, last.1, thermal[sites.len() - 1] as int));
    }
}

/// At zero temperature or below no attempt that raises the energy is
/// accepted, whatever the heat bath offers.
pub proof fn lemma_cold_lattice_refuses_uphill(g: Grid, x: int, y: int, thermal: int)
    requires
        g.temperature <= 0,
        g.energy_change(x, y) > 0,
    ensures
        g.step_at(x, y, thermal) == g,
{
}

/// A run makes one attempt for each of its sites: a run of no sites changes
/// nothing, and a run of one site more is the run so far and one attempt.
pub proof fn lemma_run_counts_attempts(
    g: Grid,
    sites: Seq<(int, int)>,
    thermal: Seq<i64>,
    x: int,
    y: int,
)
    ensures
        g.run(Seq::empty(), thermal) == g,
        g.run(sites.push((x, y)), thermal) == g.run(sites, thermal).step_at(
            x,
            y,
            thermal[sites.len() as int] as int,
        ),
{
    let longer = sites.push((x, y));
    assert(longer.drop_last() =~= sites);
    assert(longer.last() == (x, y));
}

/// In the picture at any scale, the pixel in column `px` of row `py` has the
/// colour of the site that it lies over, the site `(px / scale, py / scale)`:
/// every site is a square of one colour, `scale` pixels each way.
pub proof fn lemma_picture_pixel(g: Grid, scale: nat, px: int, py: int, channel: int)
    requires
        g.wf(),
        scale >= 1,
        0 <= px < g.picture_side(scale),
        0 <= py < g.picture_side(scale),
        0 <= channel < 3,
    ensures
        g.picture(scale).len() == 3 * (g.picture_side(scale) * g.picture_side(scale)),
        0 <= 3 * (py * g.picture_side(scale) + px) + channel < g.picture(scale).len(),
        g.picture(scale)[3 * (py * g.picture_side(scale) + px) + channel] == colour(
            g.spin_at(px / (scale as int), py / (scale as int)),
            channel,
        ),
{
    lemma_pixel_place(g.picture_side(scale) as int, px, py, channel);
}

/// A spin glass without antiferromagnetic bonds has the bonds of a
/// ferromagnet, and one with nothing but antiferromagnetic bonds those of an
/// antiferromagnet.
pub proof fn lemma_spin_glass_ends(b: InterationsStorage)
    ensures
        (LatticeType::SpinGlass { p_antiferro: 0 }).admits(b)
            <==> LatticeType::Ferromagnetic.admits(b),
        (LatticeType::SpinGlass { p_antiferro: 1000 }).admits(b)
            <==> LatticeType::Antiferromagnetic.admits(b),
{
}

} // verus!
