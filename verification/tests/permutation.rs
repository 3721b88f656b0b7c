use ilyvion_util::permutation::heap_permutation;

#[test]
fn three() {
    let mut digits: Vec<u64> = vec![1, 2, 3];
    let sut = heap_permutation(&mut digits);
    assert_eq!(vec![123, 213, 312, 132, 231, 321], sut);
}

#[test]
fn two_digits_give_both_orders() {
    let mut digits: Vec<u64> = vec![1, 2];
    let sut = heap_permutation(&mut digits);
    assert_eq!(vec![12, 21], sut);
}

#[test]
fn no_digits_give_no_permutations() {
    let mut digits: Vec<u64> = vec![];
    let sut = heap_permutation(&mut digits);
    assert!(sut.is_empty());
}

#[test]
fn four_digits_give_factorially_many_permutations() {
    let mut digits: Vec<u64> = vec![1, 2, 3, 4];
    let sut = heap_permutation(&mut digits);
    assert_eq!(sut.len(), 24);
    assert!(sut.contains(&1234));
    assert!(sut.contains(&4321));
    assert_eq!(digits.len(), 4);
}
