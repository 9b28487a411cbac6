use wave_art::dyadic::{power_of_two, weigh, weigh_raised, Balance};

#[test]
fn powers_of_two() {
    assert_eq!(power_of_two(0), 1);
    assert_eq!(power_of_two(1), 2);
    assert_eq!(power_of_two(10), 1024);
    assert_eq!(power_of_two(127), 1u128 << 127);
}

#[test]
fn weigh_raised_against_plain() {
    assert_eq!(weigh_raised(3, 2, 12), Balance::Level);
    assert_eq!(weigh_raised(3, 2, 13), Balance::Below);
    assert_eq!(weigh_raised(3, 2, 11), Balance::Above);
    assert_eq!(weigh_raised(5, 0, 5), Balance::Level);
    assert_eq!(weigh_raised(0, 300, 0), Balance::Level);
    assert_eq!(weigh_raised(0, 300, 1), Balance::Below);
}

#[test]
fn weigh_raised_near_the_limit() {
    assert_eq!(weigh_raised(1, 127, u128::MAX), Balance::Below);
    assert_eq!(weigh_raised(1, 127, 1u128 << 127), Balance::Level);
    assert_eq!(weigh_raised(2, 127, u128::MAX), Balance::Above);
    assert_eq!(weigh_raised(1, 128, u128::MAX), Balance::Above);
    assert_eq!(weigh_raised(1, u32::MAX, u128::MAX), Balance::Above);
}

#[test]
fn weigh_with_exponents_on_both_sides() {
    assert_eq!(weigh(3, 2, 12, 0), Balance::Level);
    assert_eq!(weigh(12, 0, 3, 2), Balance::Level);
    assert_eq!(weigh(1, 0, 1, 1), Balance::Below);
    assert_eq!(weigh(1, 1, 1, 0), Balance::Above);
    assert_eq!(weigh(5, 1, 11, 0), Balance::Below);
    assert_eq!(weigh(11, 0, 5, 1), Balance::Above);
    assert_eq!(weigh(7, 250, 7, 250), Balance::Level);
    assert_eq!(weigh(7, 250, 14, 249), Balance::Level);
    assert_eq!(weigh(7, 250, 15, 249), Balance::Below);
    assert_eq!(weigh(1, 253, u128::MAX, 0), Balance::Above);
    assert_eq!(weigh(u128::MAX, 0, 1, 253), Balance::Below);
    assert_eq!(weigh(0, 253, 0, 0), Balance::Level);
}
