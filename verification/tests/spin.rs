use ising::fraction::Fraction;
use ising::spin::Spin;
use ising::{MILLI, SITE_ENERGY_LIMIT};

#[test]
fn spin_values() {
    assert_eq!(Spin::Up.value(), 1);
    assert_eq!(Spin::Down.value(), -1);
}

#[test]
fn spin_negation() {
    assert_eq!(Spin::Up.flipped(), Spin::Down);
    assert_eq!(Spin::Down.flipped(), Spin::Up);
    assert_eq!(Spin::Up.flipped().flipped(), Spin::Up);
}

#[test]
fn spin_products() {
    assert_eq!(Spin::Up.times(Spin::Up), 1);
    assert_eq!(Spin::Down.times(Spin::Down), 1);
    assert_eq!(Spin::Up.times(Spin::Down), -1);
    assert_eq!(Spin::Down.times(Spin::Up), -1);
}

#[test]
fn spin_from_a_coin() {
    assert_eq!(Spin::from_draw(true), Spin::Up);
    assert_eq!(Spin::from_draw(false), Spin::Down);
}

#[test]
fn constants() {
    assert_eq!(MILLI, 1000);
    assert_eq!(SITE_ENERGY_LIMIT, 4 * 128 * MILLI + (1i64 << 31));
}

#[test]
fn fractions_compare_by_their_parts() {
    let a = Fraction { numerator: 4, denominator: 4 };
    assert_eq!(a, Fraction { numerator: 4, denominator: 4 });
    assert_ne!(a, Fraction { numerator: 1, denominator: 1 });
}
