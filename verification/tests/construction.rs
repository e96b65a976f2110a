use ising::coupling::{ConstructionError, InterationsStorage, LatticeInitialState, LatticeType};
use ising::lattice::Lattice;
use ising::spin::Spin;

fn bonds_are(lattice: &Lattice, strength: i8) -> bool {
    let side = lattice.size() as isize;
    for y in 0..side {
        for x in 0..side {
            let j = lattice.get_interactions(x, y);
            if j.up != strength || j.left != strength || j.down != strength || j.right != strength {
                return false;
            }
        }
    }
    true
}

#[test]
fn zero_size_is_refused() {
    let r = Lattice::new_uniform(0, 1000, 0, Spin::Up, LatticeType::Ferromagnetic);
    assert_eq!(r.err(), Some(ConstructionError::InvalidSize));
    let r = Lattice::new_random(0, 1000, 0, LatticeType::Antiferromagnetic);
    assert_eq!(r.err(), Some(ConstructionError::InvalidSize));
    let r = Lattice::new(0, 1000, 0, LatticeInitialState::AllDown, LatticeType::Ferromagnetic);
    assert_eq!(r.err(), Some(ConstructionError::InvalidSize));
}

#[test]
fn probability_outside_zero_to_one_is_refused() {
    let above = LatticeType::SpinGlass { p_antiferro: 1001 };
    let below = LatticeType::SpinGlass { p_antiferro: -1 };
    assert_eq!(
        Lattice::new_uniform(3, 1000, 0, Spin::Up, above).err(),
        Some(ConstructionError::InvalidProbability)
    );
    assert_eq!(
        Lattice::new_random(3, 1000, 0, below).err(),
        Some(ConstructionError::InvalidProbability)
    );
    assert!(!above.is_valid());
    assert!(!below.is_valid());
    assert!(LatticeType::SpinGlass { p_antiferro: 0 }.is_valid());
    assert!(LatticeType::SpinGlass { p_antiferro: 1000 }.is_valid());
    assert!(LatticeType::Ferromagnetic.is_valid());
}

#[test]
fn zero_size_is_reported_before_a_bad_probability() {
    let bad = LatticeType::SpinGlass { p_antiferro: 5000 };
    assert_eq!(
        Lattice::new_uniform(0, 1000, 0, Spin::Up, bad).err(),
        Some(ConstructionError::InvalidSize)
    );
}

#[test]
fn uniform_lattice_holds_the_given_spin_everywhere() {
    for size in 1..6usize {
        for spin in [Spin::Up, Spin::Down] {
            let l = Lattice::new_uniform(size, 2500, -300, spin, LatticeType::Ferromagnetic).unwrap();
            assert_eq!(l.size(), size);
            assert_eq!(l.temperature(), 2500);
            assert_eq!(l.magnetic_field(), -300);
            for y in 0..size as isize {
                for x in 0..size as isize {
                    assert_eq!(l.get(x, y), spin);
                }
            }
        }
    }
}

#[test]
fn ferromagnetic_and_antiferromagnetic_bonds() {
    let f = Lattice::new_uniform(4, 1000, 0, Spin::Up, LatticeType::Ferromagnetic).unwrap();
    assert!(bonds_are(&f, 1));
    let a = Lattice::new_random(4, 1000, 0, LatticeType::Antiferromagnetic).unwrap();
    assert!(bonds_are(&a, -1));
    assert_eq!(InterationsStorage::ferromagnetic(), InterationsStorage { up: 1, left: 1 });
    assert_eq!(InterationsStorage::antiferromagnetic(), InterationsStorage { up: -1, left: -1 });
}

#[test]
fn spin_glass_without_antiferromagnetic_bonds_is_a_ferromagnet() {
    let l = Lattice::new_random(8, 1000, 0, LatticeType::SpinGlass { p_antiferro: 0 }).unwrap();
    assert!(bonds_are(&l, 1));
    for _ in 0..200 {
        assert_eq!(InterationsStorage::spin_glass(0), InterationsStorage { up: 1, left: 1 });
    }
}

#[test]
fn spin_glass_of_antiferromagnetic_bonds_only_is_an_antiferromagnet() {
    let l = Lattice::new_uniform(8, 1000, 0, Spin::Down, LatticeType::SpinGlass { p_antiferro: 1000 })
        .unwrap();
    assert!(bonds_are(&l, -1));
    for _ in 0..200 {
        assert_eq!(InterationsStorage::spin_glass(1000), InterationsStorage { up: -1, left: -1 });
    }
}

#[test]
fn spin_glass_bonds_are_plus_or_minus_one() {
    let l = Lattice::new_random(16, 1000, 0, LatticeType::SpinGlass { p_antiferro: 500 }).unwrap();
    let mut plus = 0;
    let mut minus = 0;
    for y in 0..16 {
        for x in 0..16 {
            let j = l.get_interactions(x, y);
            for b in [j.up, j.left, j.down, j.right] {
                assert!(b == 1 || b == -1);
                if b == 1 {
                    plus += 1;
                } else {
                    minus += 1;
                }
            }
        }
    }
    // 1024 fair draws: both kinds turn up
    assert!(plus > 0);
    assert!(minus > 0);
}

#[test]
fn bonds_from_draws() {
    assert_eq!(InterationsStorage::from_draws(true, true), InterationsStorage { up: 1, left: 1 });
    assert_eq!(InterationsStorage::from_draws(true, false), InterationsStorage { up: 1, left: -1 });
    assert_eq!(InterationsStorage::from_draws(false, true), InterationsStorage { up: -1, left: 1 });
    assert_eq!(InterationsStorage::from_draws(false, false), InterationsStorage { up: -1, left: -1 });
}

#[test]
fn random_lattice_has_a_spin_at_every_site() {
    let l = Lattice::new_random(32, 1000, 0, LatticeType::Ferromagnetic).unwrap();
    assert_eq!(l.size(), 32);
    let mut up = 0;
    let mut down = 0;
    for y in 0..32 {
        for x in 0..32 {
            match l.get(x, y) {
                Spin::Up => up += 1,
                Spin::Down => down += 1,
            }
        }
    }
    assert_eq!(up + down, 1024);
    // 1024 fair coins: both faces turn up
    assert!(up > 0);
    assert!(down > 0);
}

#[test]
fn initial_state_selects_the_constructor() {
    let up = Lattice::new(3, 1000, 0, LatticeInitialState::AllUp, LatticeType::Ferromagnetic).unwrap();
    let down =
        Lattice::new(3, 1000, 0, LatticeInitialState::AllDown, LatticeType::Ferromagnetic).unwrap();
    let random =
        Lattice::new(3, 700, 20, LatticeInitialState::Random, LatticeType::Antiferromagnetic).unwrap();
    for y in 0..3 {
        for x in 0..3 {
            assert_eq!(up.get(x, y), Spin::Up);
            assert_eq!(down.get(x, y), Spin::Down);
        }
    }
    assert_eq!(random.size(), 3);
    assert_eq!(random.temperature(), 700);
    assert_eq!(random.magnetic_field(), 20);
    assert!(bonds_are(&random, -1));
}

#[test]
fn temperature_and_field_can_be_set() {
    let mut l = Lattice::new_uniform(2, 1000, 0, Spin::Up, LatticeType::Ferromagnetic).unwrap();
    l.set_temperature(0);
    l.set_magnetic_field(-5000);
    assert_eq!(l.temperature(), 0);
    assert_eq!(l.magnetic_field(), -5000);
    assert_eq!(l.size(), 2);
    assert_eq!(l.get(1, 1), Spin::Up);
}
