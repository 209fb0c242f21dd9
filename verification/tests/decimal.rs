use macos_permissions::decimal::decimal_string_i32;

#[test]
fn renders_small_numbers() {
    assert_eq!(decimal_string_i32(0), "0");
    assert_eq!(decimal_string_i32(7), "7");
    assert_eq!(decimal_string_i32(10), "10");
    assert_eq!(decimal_string_i32(999), "999");
}

#[test]
fn renders_negative_numbers() {
    assert_eq!(decimal_string_i32(-1), "-1");
    assert_eq!(decimal_string_i32(-1234), "-1234");
}

#[test]
fn renders_the_extremes() {
    assert_eq!(decimal_string_i32(i32::MAX), "2147483647");
    assert_eq!(decimal_string_i32(i32::MIN), "-2147483648");
}
