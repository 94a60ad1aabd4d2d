use button_events::render::decimal_string;

#[test]
fn single_digits() {
    assert_eq!(decimal_string(0), "0");
    assert_eq!(decimal_string(9), "9");
}

#[test]
fn line_ids_render_as_decimal() {
    assert_eq!(decimal_string(12), "12");
    assert_eq!(decimal_string(13), "13");
}

#[test]
fn multi_digit_values() {
    assert_eq!(decimal_string(10), "10");
    assert_eq!(decimal_string(255), "255");
    assert_eq!(decimal_string(2147483647), "2147483647");
}

#[test]
fn negative_values() {
    assert_eq!(decimal_string(-3), "-3");
    assert_eq!(decimal_string(-2147483648), "-2147483648");
}
