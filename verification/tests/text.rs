use salt::numeral::decimal_string;
use salt::order::order_of_bytes;
use salt::order::order_of_indices;
use salt::order::order_of_text;
use salt::order::same_text;
use salt::order::shared_prefix_bytes;
use salt::order::shared_prefix_indices;
use std::cmp::Ordering;

#[test]
fn decimal_of_small_and_large_numbers() {
    assert_eq!(decimal_string(0), "0");
    assert_eq!(decimal_string(7), "7");
    assert_eq!(decimal_string(10), "10");
    assert_eq!(decimal_string(305), "305");
    assert_eq!(decimal_string(1234567890), "1234567890");
    assert_eq!(decimal_string(u64::MAX), "18446744073709551615");
}

#[test]
fn decimal_agrees_with_std_on_a_range() {
    for n in 0..2000u64 {
        assert_eq!(decimal_string(n), format!("{}", n));
    }
}

#[test]
fn shared_prefix_lengths() {
    assert_eq!(shared_prefix_bytes(b"hello", b"help"), 3);
    assert_eq!(shared_prefix_bytes(b"hello", b"hello"), 5);
    assert_eq!(shared_prefix_bytes(b"", b"hello"), 0);
    assert_eq!(shared_prefix_bytes(b"abc", b"xbc"), 0);
    assert_eq!(shared_prefix_indices(&[1, 2, 3], &[1, 2, 4, 5]), 2);
    assert_eq!(shared_prefix_indices(&[], &[]), 0);
}

#[test]
fn order_of_sequences() {
    assert_eq!(order_of_bytes(b"abc", b"abd"), Ordering::Less);
    assert_eq!(order_of_bytes(b"abc", b"ab"), Ordering::Greater);
    assert_eq!(order_of_bytes(b"", b""), Ordering::Equal);
    assert_eq!(order_of_bytes(&[255], &[0, 0]), Ordering::Greater);
    assert_eq!(order_of_indices(&[1, 2], &[1, 2]), Ordering::Equal);
    assert_eq!(order_of_indices(&[1, 2], &[1, 2, 0]), Ordering::Less);
    assert_eq!(order_of_indices(&[usize::MAX], &[0, 1]), Ordering::Greater);
}

#[test]
fn order_of_text_agrees_with_std() {
    let words = ["", "a", "ab", "abc", "b", "Z", "z", "\u{e9}", "\u{4e16}\u{754c}", "zz", "a b"];
    for x in words.iter() {
        for y in words.iter() {
            assert_eq!(order_of_text(x, y), x.cmp(y));
            assert_eq!(same_text(x, y), x == y);
        }
    }
}
