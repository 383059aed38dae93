use uinput::decimal_string;

#[test]
fn single_digits() {
    assert_eq!(decimal_string(0), "0");
    assert_eq!(decimal_string(5), "5");
    assert_eq!(decimal_string(9), "9");
}

#[test]
fn several_digits() {
    assert_eq!(decimal_string(10), "10");
    assert_eq!(decimal_string(120), "120");
    assert_eq!(decimal_string(1203), "1203");
    assert_eq!(decimal_string(1000000), "1000000");
}

#[test]
fn largest_value() {
    assert_eq!(decimal_string(usize::MAX), usize::MAX.to_string());
}
