use toolcore::digits::decimal_string;

#[test]
fn decimal_string_renders_small_numbers() {
    assert_eq!(decimal_string(0), "0");
    assert_eq!(decimal_string(7), "7");
    assert_eq!(decimal_string(10), "10");
}

#[test]
fn decimal_string_renders_status_codes() {
    assert_eq!(decimal_string(200), "200");
    assert_eq!(decimal_string(404), "404");
    assert_eq!(decimal_string(503), "503");
}

#[test]
fn decimal_string_renders_the_largest_value() {
    assert_eq!(decimal_string(65535), "65535");
}
