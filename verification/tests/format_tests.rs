use minils::format_permissions;
use minils::num::{pad_left_str, pad_right_str, u64_string};

#[test]
fn permissions_of_a_directory() {
    assert_eq!(format_permissions(0o40755), "drwxr-xr-x");
}

#[test]
fn permissions_of_a_plain_file() {
    assert_eq!(format_permissions(0o100644), "-rw-r--r--");
}

#[test]
fn permissions_all_clear() {
    assert_eq!(format_permissions(0), "----------");
}

#[test]
fn permissions_write_only() {
    assert_eq!(format_permissions(0o40222), "d-w--w--w-");
}

#[test]
fn permissions_full() {
    assert_eq!(format_permissions(0o40777), "drwxrwxrwx");
}

#[test]
fn decimal_of_zero() {
    assert_eq!(u64_string(0), "0");
}

#[test]
fn decimal_of_a_round_number() {
    assert_eq!(u64_string(1000), "1000");
}

#[test]
fn decimal_of_the_largest_size() {
    assert_eq!(u64_string(u64::MAX), "18446744073709551615");
}

#[test]
fn pad_left_fills_with_spaces() {
    assert_eq!(pad_left_str("7", 9), "        7");
}

#[test]
fn pad_left_leaves_wide_strings_alone() {
    assert_eq!(pad_left_str("abcd", 2), "abcd");
}

#[test]
fn pad_right_fills_with_spaces() {
    assert_eq!(pad_right_str("ab", 4), "ab  ");
}

#[test]
fn pad_right_leaves_wide_strings_alone() {
    assert_eq!(pad_right_str("abcdef", 3), "abcdef");
}
