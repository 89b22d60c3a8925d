use catr::format::{decimal_string, right_align};
use catr::numbering::{index_field_string, INDEX_WIDTH};

#[test]
fn decimal_of_single_digits() {
    assert_eq!(decimal_string(0), "0");
    assert_eq!(decimal_string(7), "7");
    assert_eq!(decimal_string(9), "9");
}

#[test]
fn decimal_of_several_digits() {
    assert_eq!(decimal_string(10), "10");
    assert_eq!(decimal_string(407), "407");
    assert_eq!(decimal_string(1_000_000), "1000000");
    assert_eq!(decimal_string(9_876_543_210), "9876543210");
}

#[test]
fn decimal_of_the_largest_number() {
    assert_eq!(decimal_string(u64::MAX), "18446744073709551615");
}

#[test]
fn decimal_agrees_with_std() {
    let mut n: u64 = 1;
    for _ in 0..19 {
        assert_eq!(decimal_string(n), format!("{}", n));
        assert_eq!(decimal_string(n - 1), format!("{}", n - 1));
        n *= 10;
    }
}

#[test]
fn right_align_pads_on_the_left() {
    assert_eq!(right_align("7", 6), "     7");
    assert_eq!(right_align("42", 6), "    42");
    assert_eq!(right_align("", 3), "   ");
}

#[test]
fn right_align_leaves_wide_text_alone() {
    assert_eq!(right_align("123456", 6), "123456");
    assert_eq!(right_align("1234567", 6), "1234567");
    assert_eq!(right_align("abc", 0), "abc");
}

#[test]
fn right_align_counts_characters_not_bytes() {
    assert_eq!(right_align("é", 3), "  é");
}

#[test]
fn index_field_is_six_wide_and_ends_in_a_tab() {
    assert_eq!(INDEX_WIDTH, 6);
    assert_eq!(index_field_string(1), "     1\t");
    assert_eq!(index_field_string(10), "    10\t");
    assert_eq!(index_field_string(99_999), " 99999\t");
    assert_eq!(index_field_string(999_999), "999999\t");
}

#[test]
fn index_field_grows_with_long_numbers() {
    assert_eq!(index_field_string(1_000_000), "1000000\t");
    assert_eq!(index_field_string(u64::MAX), "18446744073709551615\t");
}

#[test]
fn index_field_agrees_with_std() {
    for n in [1u64, 9, 10, 99, 100, 12_345, 999_999, 1_000_000, 123_456_789] {
        assert_eq!(index_field_string(n), format!("{:>6}\t", n));
    }
}
