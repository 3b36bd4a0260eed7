use project_token::fixed_point::{Permill, Perquintill, PERMILL_ACCURACY, PERQUINTILL_ACCURACY};

#[test]
fn permill_constructors_cap_at_one_whole() {
    assert_eq!(Permill::from_parts(250_000).deconstruct(), 250_000);
    assert_eq!(Permill::from_parts(2_000_000).deconstruct(), PERMILL_ACCURACY);
    assert_eq!(Permill::from_percent(20).deconstruct(), 200_000);
    assert_eq!(Permill::from_percent(250).deconstruct(), PERMILL_ACCURACY);
    assert_eq!(Permill::zero().deconstruct(), 0);
    assert_eq!(Permill::one().deconstruct(), PERMILL_ACCURACY);
    assert_eq!(Permill(3_000_000).deconstruct(), PERMILL_ACCURACY);
}

#[test]
fn permill_mul_floor_rounds_down() {
    assert_eq!(Permill::from_percent(20).mul_floor(100), 20);
    assert_eq!(Permill::from_parts(666_667).mul_floor(10), 6);
    assert_eq!(Permill::from_parts(999_999).mul_floor(1), 0);
    assert_eq!(Permill::one().mul_floor(u128::MAX), u128::MAX);
    assert_eq!(Permill::zero().mul_floor(u128::MAX), 0);
    assert_eq!(Permill::from_percent(50).mul_floor(u128::MAX), u128::MAX / 2);
}

#[test]
fn permill_from_rational_approximation_rounds_down() {
    assert_eq!(Permill::from_rational_approximation(50, 100).deconstruct(), 500_000);
    assert_eq!(Permill::from_rational_approximation(1, 3).deconstruct(), 333_333);
    assert_eq!(Permill::from_rational_approximation(2, 3).deconstruct(), 666_666);
    assert_eq!(Permill::from_rational_approximation(100, 100).deconstruct(), PERMILL_ACCURACY);
}

#[test]
fn permill_from_rational_approximation_edge_cases() {
    // a zero denominator counts as one, a numerator above the denominator as the denominator
    assert_eq!(Permill::from_rational_approximation(0, 0).deconstruct(), 0);
    assert_eq!(Permill::from_rational_approximation(5, 0).deconstruct(), PERMILL_ACCURACY);
    assert_eq!(Permill::from_rational_approximation(7, 3).deconstruct(), PERMILL_ACCURACY);
    // a denominator above the accuracy is brought down by the least factor that fits
    assert_eq!(
        Permill::from_rational_approximation(1_000_001, 3_000_000).deconstruct(),
        333_333
    );
}

#[test]
fn perquintill_arithmetic() {
    assert_eq!(
        Perquintill::from_rational_approximation(100_000, 1_000_000_000).deconstruct(),
        100_000_000_000_000
    );
    assert_eq!(Perquintill::from_parts(u64::MAX).deconstruct(), PERQUINTILL_ACCURACY);
    assert_eq!(Perquintill::from_parts(50_000_000_000_000_000).mul_floor(1000), 50);
    assert_eq!(Perquintill::one().mul_floor(u128::MAX), u128::MAX);
    assert_eq!(Perquintill::from_parts(1).mul_floor(999_999_999_999_999_999), 0);
    assert_eq!(Perquintill::from_parts(1).mul_floor(1_000_000_000_000_000_000), 1);
    assert_eq!(
        Perquintill::from_parts(7).saturating_sub(Perquintill::from_parts(5)).deconstruct(),
        2
    );
    assert_eq!(
        Perquintill::from_parts(5).saturating_sub(Perquintill::from_parts(7)).deconstruct(),
        0
    );
    assert_eq!(Perquintill::zero().deconstruct(), 0);
}
