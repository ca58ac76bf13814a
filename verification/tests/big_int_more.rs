use aes_block::big_int::BigInt;
use std::cmp::Ordering;

#[test]
fn init_is_zero_of_the_given_size() {
    let zero = BigInt::init(3);
    assert_eq!(zero.size(), 3);
    assert_eq!(zero.content(), &vec![0u8, 0, 0]);
    assert!(!zero.has_error());
    assert_eq!(BigInt::init(0).size(), 0);
}

#[test]
fn new_keeps_the_bytes() {
    let n = BigInt::new(vec![1, 2, 3]);
    assert_eq!(n.size(), 3);
    assert_eq!(n.content(), &vec![1u8, 2, 3]);
    assert!(!n.has_error());
}

#[test]
fn copy_keeps_the_flag() {
    let failed = BigInt::new(vec![1]) - BigInt::new(vec![2]);
    assert!(failed.has_error());
    let twin = BigInt::copy(&failed);
    assert!(twin.has_error());
    assert_eq!(twin.content(), &vec![1u8]);
}

#[test]
fn set_overwrites_the_low_bytes() {
    let mut n = BigInt::new(vec![1, 2, 3, 4]);
    n.set(vec![9, 8]);
    assert_eq!(n.content(), &vec![9u8, 8, 3, 4]);
    assert_eq!(n.size(), 4);
}

#[test]
fn set_ignores_bytes_beyond_the_size() {
    let mut n = BigInt::new(vec![1, 2]);
    n.set(vec![7, 6, 5, 4]);
    assert_eq!(n.content(), &vec![7u8, 6]);
    let mut empty = BigInt::init(0);
    empty.set(vec![1]);
    assert_eq!(empty.size(), 0);
}

#[test]
fn trim_drops_high_zero_bytes() {
    let mut n = BigInt::new(vec![5, 0, 7, 0, 0]);
    n.trim();
    assert_eq!(n.content(), &vec![5u8, 0, 7]);
    assert_eq!(n.size(), 3);
}

#[test]
fn trim_keeps_one_byte_of_zero() {
    let mut zero = BigInt::init(4);
    zero.trim();
    assert_eq!(zero.content(), &vec![0u8]);
    let mut empty = BigInt::init(0);
    empty.trim();
    assert_eq!(empty.size(), 0);
}

#[test]
fn trim_leaves_a_trimmed_number() {
    let mut n = BigInt::new(vec![0, 0, 1]);
    n.trim();
    assert_eq!(n.content(), &vec![0u8, 0, 1]);
}

#[test]
fn sum_carries_into_the_longer_operand() {
    let sum = BigInt::new(vec![255]) + BigInt::new(vec![1, 5]);
    assert_eq!(sum, BigInt::new(vec![0, 6, 0]));
    let sum = BigInt::new(vec![255, 0]) + BigInt::new(vec![1]);
    assert_eq!(sum, BigInt::new(vec![0, 1]));
    let sum = BigInt::new(vec![255, 255, 7]) + BigInt::new(vec![1]);
    assert_eq!(sum, BigInt::new(vec![0, 0, 8]));
}

#[test]
fn sum_grows_when_the_top_bytes_reach_255() {
    let sum = BigInt::new(vec![0, 200]) + BigInt::new(vec![0, 55]);
    assert_eq!(sum, BigInt::new(vec![0, 255, 0]));
    let sum = BigInt::new(vec![0, 200]) + BigInt::new(vec![0, 54]);
    assert_eq!(sum, BigInt::new(vec![0, 254]));
    let sum = BigInt::new(vec![1]) + BigInt::new(vec![255]);
    assert_eq!(sum, BigInt::new(vec![0, 1]));
}

#[test]
fn sum_of_empty_numbers_is_empty() {
    let sum = BigInt::init(0) + BigInt::init(0);
    assert_eq!(sum.size(), 0);
    let sum = BigInt::init(0) + BigInt::new(vec![3, 4]);
    assert_eq!(sum, BigInt::new(vec![3, 4]));
}

#[test]
fn sum_clears_the_flag() {
    let failed = BigInt::new(vec![1]) - BigInt::new(vec![2]);
    let sum = failed + BigInt::new(vec![1]);
    assert!(!sum.has_error());
    assert_eq!(sum.content(), &vec![2u8]);
}

#[test]
fn difference_below_zero_sets_the_flag() {
    let diff = BigInt::new(vec![2, 5]) - BigInt::new(vec![2, 6]);
    assert!(diff.has_error());
    assert_eq!(diff.content(), &vec![2u8, 5]);
}

#[test]
fn difference_of_equal_numbers_is_zero() {
    let diff = BigInt::new(vec![9, 9]) - BigInt::new(vec![9, 9]);
    assert!(!diff.has_error());
    assert_eq!(diff.content(), &vec![0u8, 0]);
}

#[test]
fn difference_with_a_shorter_or_longer_operand() {
    let diff = BigInt::new(vec![0, 0, 1]) - BigInt::new(vec![1]);
    assert_eq!(diff, BigInt::new(vec![255, 255, 0]));
    assert!(!diff.has_error());
    let diff = BigInt::new(vec![7]) - BigInt::new(vec![3, 0, 0]);
    assert_eq!(diff, BigInt::new(vec![4]));
    let diff = BigInt::new(vec![7]) - BigInt::new(vec![3, 1]);
    assert!(diff.has_error());
    assert_eq!(diff.content(), &vec![7u8]);
}

#[test]
fn difference_borrows_across_bytes() {
    let diff = BigInt::new(vec![0, 0, 0, 1]) - BigInt::new(vec![1, 0, 0, 0]);
    assert_eq!(diff, BigInt::new(vec![255, 255, 255, 0]));
}

#[test]
fn equality_is_by_bytes_not_by_value() {
    assert!(BigInt::new(vec![1, 0]) != BigInt::new(vec![1]));
    assert!(BigInt::new(vec![1, 2]) != BigInt::new(vec![1, 3]));
    assert!(BigInt::init(0) == BigInt::init(0));
}

#[test]
fn equality_ignores_the_flag() {
    let failed = BigInt::new(vec![1]) - BigInt::new(vec![2]);
    assert!(failed == BigInt::new(vec![1]));
}

#[test]
fn order_is_by_value() {
    let small = BigInt::new(vec![255, 0, 0]);
    let large = BigInt::new(vec![0, 1]);
    assert_eq!(small.partial_cmp(&large), Some(Ordering::Less));
    assert_eq!(large.partial_cmp(&small), Some(Ordering::Greater));
    assert_eq!(large.partial_cmp(&BigInt::new(vec![0, 1])), Some(Ordering::Equal));
    assert!(small <= large);
    assert!(large >= small);
}

#[test]
fn equal_values_of_different_lengths_are_unordered() {
    let short = BigInt::new(vec![5]);
    let long = BigInt::new(vec![5, 0]);
    assert_eq!(short.partial_cmp(&long), None);
    assert!(!(short < long));
    assert!(!(short > long));
    assert!(!(short <= long));
}

#[test]
fn most_significant_byte_decides_the_order() {
    let a = BigInt::new(vec![255, 1]);
    let b = BigInt::new(vec![0, 2]);
    assert!(a < b);
    assert!(b > a);
}
