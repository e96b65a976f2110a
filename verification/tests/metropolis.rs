use ising::coupling::LatticeType;
use ising::lattice::Lattice;
use ising::spin::Spin;

fn spins(l: &Lattice) -> Vec<Spin> {
    let side = l.size() as isize;
    let mut all = Vec::new();
    for y in 0..side {
        for x in 0..side {
            all.push(l.get(x, y));
        }
    }
    all
}

fn differences(a: &[Spin], b: &[Spin]) -> usize {
    assert_eq!(a.len(), b.len());
    a.iter().zip(b.iter()).filter(|(x, y)| x != y).count()
}

fn ferromagnet(size: usize, temperature: i32, field: i32) -> Lattice {
    Lattice::new_uniform(size, temperature, field, Spin::Up, LatticeType::Ferromagnetic).unwrap()
}

#[test]
fn downhill_step_flips_exactly_one_site() {
    let mut l = ferromagnet(3, 0, 0);
    l.flip(1, 1);
    let before = spins(&l);
    // turning the odd spin back lowers the energy by 16: accepted with no offer, at any temperature
    l.step_at(1, 1, 0);
    let after = spins(&l);
    assert_eq!(differences(&before, &after), 1);
    assert_eq!(l.get(1, 1), Spin::Up);
    assert_ne!(before[4], after[4]);
}

#[test]
fn step_at_level_energy_is_accepted() {
    // two neighbours up and two down: the energy does not change
    let mut l = ferromagnet(4, 0, 0);
    l.flip(0, 1);
    l.flip(1, 0);
    let before = spins(&l);
    let energy = l.internal_energy();
    l.step_at(1, 1, 0);
    assert_eq!(l.get(1, 1), Spin::Down);
    assert_eq!(differences(&before, &spins(&l)), 1);
    assert_eq!(l.internal_energy(), energy);
}

#[test]
fn uphill_step_is_accepted_when_the_offer_covers_it() {
    let mut l = ferromagnet(3, 1000, 0);
    let before = spins(&l);
    // the rise is 16 units
    l.step_at(1, 1, 16000);
    assert_eq!(l.get(1, 1), Spin::Down);
    assert_eq!(differences(&before, &spins(&l)), 1);
    assert_eq!(l.internal_energy(), -20000);
}

#[test]
fn uphill_step_is_refused_when_the_offer_falls_short() {
    let mut l = ferromagnet(3, 1000, 0);
    let before = spins(&l);
    l.step_at(1, 1, 15999);
    assert_eq!(spins(&l), before);
    l.step_at(1, 1, 0);
    assert_eq!(spins(&l), before);
    l.step_at(1, 1, -1);
    assert_eq!(spins(&l), before);
    l.step_at(1, 1, i64::MIN);
    assert_eq!(spins(&l), before);
}

#[test]
fn uphill_step_with_a_field() {
    // only the energy of the turned site holds its share of the field: a
    // field of 0.1 along the spin adds twice 0.1 to the rise of 16
    let mut l = ferromagnet(3, 1000, 100);
    let before = spins(&l);
    l.step_at(1, 1, 16199);
    assert_eq!(spins(&l), before);
    l.step_at(1, 1, 16200);
    assert_eq!(l.get(1, 1), Spin::Down);
    assert_eq!(differences(&before, &spins(&l)), 1);
}

#[test]
fn no_uphill_step_at_zero_temperature() {
    for temperature in [0, -1, i32::MIN] {
        let mut l = ferromagnet(3, temperature, 0);
        let before = spins(&l);
        l.step_at(1, 1, i64::MAX);
        assert_eq!(spins(&l), before);
    }
}

#[test]
fn refused_steps_leave_the_lattice_unchanged() {
    let mut l = ferromagnet(4, 0, 0);
    let before = spins(&l);
    for k in 0..200isize {
        l.step_at(k, k / 4, i64::MAX);
        assert_eq!(spins(&l), before);
    }
    for _ in 0..50 {
        l.step(i64::MAX);
        assert_eq!(spins(&l), before);
    }
    for _ in 0..10 {
        l.epoch(&vec![i64::MAX; 16]);
        assert_eq!(spins(&l), before);
    }
}

#[test]
fn step_at_wraps_its_coordinates() {
    let mut l = ferromagnet(3, 1000, 0);
    l.step_at(-2, 4, i64::MAX);
    assert_eq!(l.get(1, 1), Spin::Down);
    assert_eq!(l.magnetisation().numerator, 7);
    // the least coordinate is 1 and the greatest but one is 0, counted round a side of 3
    assert_eq!((isize::MIN.rem_euclid(3), (isize::MAX - 1) % 3), (1, 0));
    l.step_at(isize::MIN, isize::MAX - 1, i64::MAX);
    assert_eq!(l.get(1, 0), Spin::Down);
    assert_eq!(l.get(1, 1), Spin::Down);
    assert_eq!(l.magnetisation().numerator, 5);
}

#[test]
fn step_on_a_single_site() {
    // the site is its own neighbour, so only the field changes the energy:
    // five times twice the field
    let mut l = ferromagnet(1, 1000, 7);
    l.step_at(0, 0, 69);
    assert_eq!(l.get(0, 0), Spin::Up);
    l.step_at(0, 0, 70);
    assert_eq!(l.get(0, 0), Spin::Down);
    // back up is downhill
    l.step_at(0, 0, 0);
    assert_eq!(l.get(0, 0), Spin::Up);
}

#[test]
fn step_draws_a_site_of_the_lattice() {
    for size in 1..6usize {
        let mut l = ferromagnet(size, 1000, 0);
        for _ in 0..40 {
            let before = spins(&l);
            l.step(i64::MAX);
            assert_eq!(differences(&before, &spins(&l)), 1);
        }
    }
}

#[test]
fn step_reaches_every_site() {
    let mut l = ferromagnet(2, 1000, 0);
    let start = spins(&l);
    let mut touched = [false; 4];
    for _ in 0..400 {
        let before = spins(&l);
        l.step(i64::MAX);
        let after = spins(&l);
        for i in 0..4 {
            if before[i] != after[i] {
                touched[i] = true;
            }
        }
    }
    assert_eq!(start.len(), 4);
    assert_eq!(touched, [true; 4]);
}

#[test]
fn epoch_on_one_site_makes_one_attempt() {
    let mut l = ferromagnet(1, 1000, 0);
    l.epoch(&vec![i64::MAX]);
    assert_eq!(l.get(0, 0), Spin::Down);
    l.epoch(&vec![i64::MAX]);
    assert_eq!(l.get(0, 0), Spin::Up);
}

#[test]
fn epoch_makes_as_many_attempts_as_there_are_sites() {
    // every attempt is accepted and turns one spin, so after 16 attempts an
    // even number of spins is down; after 9, an odd number
    for _ in 0..20 {
        let mut l = ferromagnet(4, 1000, 0);
        l.epoch(&vec![i64::MAX; 16]);
        let down = spins(&l).iter().filter(|s| **s == Spin::Down).count();
        assert_eq!(down % 2, 0);
        assert!(down <= 16);

        let mut l = ferromagnet(3, 1000, 0);
        l.epoch(&vec![i64::MAX; 9]);
        let down = spins(&l).iter().filter(|s| **s == Spin::Down).count();
        assert_eq!(down % 2, 1);
    }
}

#[test]
fn epoch_uses_the_offers_in_turn() {
    // on one site with a field of one unit the rise is 10 units: the first
    // offer covers it, the second attempt is downhill, the third offer falls short
    let mut l = ferromagnet(1, 1000, 1000);
    l.epoch(&vec![10000]);
    assert_eq!(l.get(0, 0), Spin::Down);
    l.epoch(&vec![0]);
    assert_eq!(l.get(0, 0), Spin::Up);
    l.epoch(&vec![9999]);
    assert_eq!(l.get(0, 0), Spin::Up);
}

#[test]
fn sixteen_attempts_at_fixed_sites() {
    // one sweep's worth of attempts at given sites, row by row: the first
    // turn costs 16, the later ones less as their neighbours are down already
    let mut l = ferromagnet(4, 1000, 0);
    let mut attempts = 0;
    for y in 0..4 {
        for x in 0..4 {
            l.step_at(x, y, 16000);
            attempts += 1;
        }
    }
    assert_eq!(attempts, l.size() * l.size());
    assert_eq!(spins(&l), vec![Spin::Down; 16]);
    assert_eq!(l.internal_energy(), -64000);
}

#[test]
fn cold_ferromagnet_only_loses_energy() {
    let mut l = Lattice::new_random(8, 0, 0, LatticeType::Ferromagnetic).unwrap();
    let mut energy = l.internal_energy();
    for _ in 0..10 {
        l.epoch(&vec![i64::MAX; 64]);
        let now = l.internal_energy();
        assert!(now <= energy);
        energy = now;
    }
}
