use hammster::calculate_hamming_distance;

#[test]
fn distance_of_example_vectors_is_three() {
    let a: Vec<u64> = vec![1, 1, 0, 1, 0, 1, 0, 0];
    let b: Vec<u64> = vec![0, 1, 0, 0, 0, 1, 1, 0];
    assert_eq!(calculate_hamming_distance(&a, &b), 3);
}

#[test]
fn distance_of_equal_vectors_is_zero() {
    let a: Vec<u64> = vec![1, 0, 1, 0, 1, 0, 1, 0];
    assert_eq!(calculate_hamming_distance(&a, &a.clone()), 0);
}

#[test]
fn distance_of_complementary_vectors_is_eight() {
    let a: Vec<u64> = vec![1, 1, 1, 1, 0, 0, 0, 0];
    let b: Vec<u64> = vec![0, 0, 0, 0, 1, 1, 1, 1];
    assert_eq!(calculate_hamming_distance(&a, &b), 8);
}

#[test]
fn distance_counts_positions_not_parity() {
    // Two differing positions: an even count must not collapse to 0.
    let a: Vec<u64> = vec![1, 1, 0, 0, 0, 0, 0, 0];
    let b: Vec<u64> = vec![0, 0, 0, 0, 0, 0, 0, 0];
    assert_eq!(calculate_hamming_distance(&a, &b), 2);
}
