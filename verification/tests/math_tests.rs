use z_color_picker::curves::catmull_rom_control_points;
use z_color_picker::math::{
    add_array, add_array_array, combination, count_combinations, count_permutations, factorial,
    mul_array,
};

#[test]
fn factorial_small_values() {
    assert_eq!(factorial(0), 1);
    assert_eq!(factorial(1), 1);
    assert_eq!(factorial(5), 120);
    assert_eq!(factorial(20), 2432902008176640000);
}

#[test]
fn combination_is_falling_factorial() {
    assert_eq!(combination(5, 2), 20);
    assert_eq!(combination(5, 0), 1);
    assert_eq!(combination(5, 5), 120);
    assert_eq!(combination(10, 3), count_permutations(10, 3));
}

#[test]
fn count_combinations_values() {
    assert_eq!(count_combinations(5, 2), 10);
    assert_eq!(count_combinations(5, 3), 10);
    assert_eq!(count_combinations(4, 0), 1);
    assert_eq!(count_combinations(4, 4), 1);
    assert_eq!(count_combinations(3, 5), 0);
    assert_eq!(count_combinations(52, 5), 2598960);
    assert_eq!(count_combinations(60, 30), 118264581564861424);
}

#[test]
fn count_combinations_is_symmetric() {
    for n in 0..30u64 {
        for r in 0..=n {
            assert_eq!(count_combinations(n, r), count_combinations(n, n - r));
        }
    }
}

#[test]
fn combinations_times_orderings_are_permutations() {
    for n in 0..15u64 {
        for r in 0..=n {
            assert_eq!(count_combinations(n, r) * factorial(r), count_permutations(n, r));
        }
    }
}

#[test]
fn count_permutations_values() {
    assert_eq!(count_permutations(5, 0), 1);
    assert_eq!(count_permutations(5, 2), 20);
    assert_eq!(count_permutations(6, 6), 720);
    assert_eq!(count_permutations(u64::MAX, 1), u64::MAX);
}

#[test]
fn array_arithmetic() {
    assert_eq!(mul_array([1, -2, 3], 4), [4, -8, 12]);
    assert_eq!(add_array([1, -2, 3], 4), [5, 2, 7]);
    assert_eq!(add_array_array([1, -2, 3], [10, 20, 30]), [11, 18, 33]);
    let empty: [i64; 0] = [];
    assert_eq!(mul_array(empty, 7), empty);
}

#[test]
fn catmull_rom_repeats_the_ends() {
    assert_eq!(catmull_rom_control_points(&[1, 2, 3]), vec![1, 1, 2, 3, 3]);
    assert_eq!(catmull_rom_control_points(&[7]), vec![7, 7, 7]);
    let none: [u8; 0] = [];
    assert!(catmull_rom_control_points(&none).is_empty());
}
