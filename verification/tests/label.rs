use game_2048_view::label::decimal_text;

#[test]
fn single_digits() {
    let digits = ["0", "1", "2", "3", "4", "5", "6", "7", "8", "9"];
    for (value, text) in digits.iter().enumerate() {
        assert_eq!(decimal_text(value as u32), *text);
    }
}

#[test]
fn powers_of_two() {
    assert_eq!(decimal_text(2), "2");
    assert_eq!(decimal_text(16), "16");
    assert_eq!(decimal_text(2048), "2048");
    assert_eq!(decimal_text(131072), "131072");
}

#[test]
fn zeros_inside_and_at_the_end() {
    assert_eq!(decimal_text(10), "10");
    assert_eq!(decimal_text(1001), "1001");
    assert_eq!(decimal_text(1000000000), "1000000000");
}

#[test]
fn largest_value() {
    assert_eq!(decimal_text(u32::MAX), "4294967295");
}

#[test]
fn agrees_with_formatting() {
    for value in (0u32..100000).step_by(37) {
        assert_eq!(decimal_text(value), format!("{}", value));
    }
}
