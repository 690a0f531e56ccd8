use math_drill::settings::DEFAULT_MAX_NUMBER;
use math_drill::{MathSign, Settings};

fn from_text(raw: &str) -> Settings {
    Settings::from_raw(raw, true, false, false, false, false)
}

#[test]
fn zero_max_number_falls_back_to_default() {
    assert_eq!(from_text("0").max_number, 100);
}

#[test]
fn non_numeric_max_number_falls_back_to_default() {
    assert_eq!(from_text("abc").max_number, 100);
}

#[test]
fn negative_empty_and_oversized_text_fall_back() {
    assert_eq!(from_text("-5").max_number, 100);
    assert_eq!(from_text("").max_number, 100);
    assert_eq!(from_text("+").max_number, 100);
    assert_eq!(from_text(" 5").max_number, 100);
    assert_eq!(from_text("2147483648").max_number, 100);
    assert_eq!(DEFAULT_MAX_NUMBER, 100);
}

#[test]
fn valid_max_number_text_is_read() {
    assert_eq!(from_text("42").max_number, 42);
    assert_eq!(from_text("+7").max_number, 7);
    assert_eq!(from_text("007").max_number, 7);
    assert_eq!(from_text("2147483647").max_number, i32::MAX);
}

#[test]
fn no_operator_flags_give_addition_only() {
    let s = Settings::from_raw("10", false, false, false, false, false);
    assert_eq!(s.operations, vec![MathSign::Plus]);
}

#[test]
fn all_operator_flags_keep_their_order() {
    let s = Settings::new(10, true, true, true, true, true);
    assert_eq!(
        s.operations,
        vec![MathSign::Plus, MathSign::Minus, MathSign::Multiply, MathSign::Divide]
    );
    assert!(s.hide_operand);
    assert!(s.can_be_negative);
}

#[test]
fn single_operator_flags() {
    assert_eq!(Settings::new(10, false, true, false, false, false).operations, vec![MathSign::Multiply]);
    assert_eq!(Settings::new(10, false, false, true, false, false).operations, vec![MathSign::Divide]);
}

#[test]
fn non_positive_max_number_in_new_falls_back() {
    assert_eq!(Settings::new(0, true, false, false, false, false).max_number, 100);
    assert_eq!(Settings::new(-3, true, false, false, false, false).max_number, 100);
    assert_eq!(Settings::new(5, true, false, false, false, false).max_number, 5);
}

#[test]
fn operator_symbols() {
    assert_eq!(MathSign::Plus.value(), "+");
    assert_eq!(MathSign::Minus.value(), "-");
    assert_eq!(MathSign::Multiply.value(), "*");
    assert_eq!(MathSign::Divide.value(), "/");
}
