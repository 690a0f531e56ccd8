use math_drill::{Blank, Equation, MathSign, Settings};

#[test]
fn addition_with_result_blank() {
    let e = Equation::compose(3, MathSign::Plus, 4, false, Blank::ResultSlot);
    assert_eq!((e.first_num, e.second_num, e.result), (3, 4, 7));
    assert_eq!(e.correct_answer, 7);
    assert_eq!(e.string_representation, "3 + 4 = ?");
}

#[test]
fn subtraction_with_first_blank() {
    let e = Equation::compose(3, MathSign::Minus, 5, false, Blank::FirstSlot);
    assert_eq!(e.result, -2);
    assert_eq!(e.correct_answer, 3);
    assert_eq!(e.string_representation, "? - 5 = -2");
}

#[test]
fn multiplication_with_second_blank() {
    let e = Equation::compose(12, MathSign::Multiply, 11, false, Blank::SecondSlot);
    assert_eq!(e.result, 132);
    assert_eq!(e.correct_answer, 11);
    assert_eq!(e.string_representation, "12 * ? = 132");
}

#[test]
fn division_keeps_second_operand_as_divisor() {
    let e = Equation::compose(6, MathSign::Divide, 7, false, Blank::ResultSlot);
    assert_eq!((e.first_num, e.second_num, e.result), (42, 7, 6));
    assert_eq!(e.correct_answer, 6);
    assert_eq!(e.string_representation, "42 / 7 = ?");
}

#[test]
fn division_swap_makes_first_operand_the_divisor() {
    let e = Equation::compose(6, MathSign::Divide, 7, true, Blank::FirstSlot);
    assert_eq!((e.first_num, e.second_num, e.result), (42, 6, 7));
    assert_eq!(e.correct_answer, 42);
    assert_eq!(e.string_representation, "? / 6 = 7");
}

#[test]
fn largest_operands_do_not_overflow() {
    let e = Equation::compose(i32::MAX, MathSign::Multiply, i32::MAX, false, Blank::ResultSlot);
    assert_eq!(e.result, 4611686014132420609);
    assert_eq!(e.string_representation, "2147483647 * 2147483647 = ?");
}

#[test]
fn check_answer_accepts_only_the_blank() {
    let e = Equation::compose(2, MathSign::Plus, 2, false, Blank::ResultSlot);
    assert!(e.check_answer(e.correct_answer));
    assert!(!e.check_answer(e.correct_answer + 1));
    assert!(!e.check_answer(5));
}

#[test]
fn generated_equations_satisfy_their_laws() {
    let settings = Settings::new(30, true, true, true, true, false);
    for _ in 0..1000 {
        let e = Equation::new(&settings);
        assert!(
            e.correct_answer == e.first_num
                || e.correct_answer == e.second_num
                || e.correct_answer == e.result
        );
        assert!(e.check_answer(e.correct_answer));
        assert!(!e.check_answer(e.correct_answer + 1));
        match e.sign {
            MathSign::Plus => assert_eq!(e.result, e.first_num + e.second_num),
            MathSign::Minus => {
                assert_eq!(e.result, e.first_num - e.second_num);
                assert!(e.result >= 0);
            }
            MathSign::Multiply => assert_eq!(e.result, e.first_num * e.second_num),
            MathSign::Divide => {
                assert_eq!(e.first_num, e.second_num * e.result);
                assert!(e.second_num >= 1 && e.second_num <= 30);
                assert!(e.result >= 1 && e.result <= 30);
            }
        }
    }
}

#[test]
fn addition_scenario_without_hidden_operands() {
    let settings = Settings::new(10, false, false, false, false, false);
    for _ in 0..500 {
        let e = Equation::new(&settings);
        assert_eq!(e.sign, MathSign::Plus);
        assert!(e.first_num >= 1 && e.first_num <= 10);
        assert!(e.second_num >= 1 && e.second_num <= 10);
        assert_eq!(e.result, e.first_num + e.second_num);
        assert_eq!(e.correct_answer, e.result);
        assert_eq!(e.string_representation, format!("{} + {} = ?", e.first_num, e.second_num));
    }
}

#[test]
fn subtraction_scenario_never_negative() {
    let settings = Settings {
        max_number: 5,
        operations: vec![MathSign::Minus],
        hide_operand: false,
        can_be_negative: false,
    };
    for _ in 0..1000 {
        let e = Equation::new(&settings);
        assert!(e.result >= 0);
    }
}

#[test]
fn negative_results_allowed_when_asked() {
    let settings = Settings {
        max_number: 5,
        operations: vec![MathSign::Minus],
        hide_operand: false,
        can_be_negative: true,
    };
    let mut saw_negative = false;
    for _ in 0..1000 {
        let e = Equation::new(&settings);
        assert!(e.result >= -4 && e.result <= 4);
        if e.result < 0 {
            saw_negative = true;
        }
    }
    assert!(saw_negative);
}

#[test]
fn hidden_operands_use_every_blank() {
    let settings = Settings::new(9, true, false, false, true, true);
    let (mut result_blank, mut first_blank, mut second_blank) = (false, false, false);
    for _ in 0..600 {
        let e = Equation::new(&settings);
        let text = &e.string_representation;
        if text.ends_with("= ?") {
            result_blank = true;
            assert_eq!(e.correct_answer, e.result);
        } else if text.starts_with('?') {
            first_blank = true;
            assert_eq!(e.correct_answer, e.first_num);
        } else {
            second_blank = true;
            assert_eq!(e.correct_answer, e.second_num);
            assert!(text.contains(" ? "));
        }
    }
    assert!(result_blank && first_blank && second_blank);
}

#[test]
fn draws_cover_the_operand_range() {
    let settings = Settings::new(10, true, true, true, false, true);
    let mut low_seen = false;
    let mut high_seen = false;
    let mut operators = Vec::new();
    for _ in 0..1000 {
        let e = Equation::new(&settings);
        if e.sign != MathSign::Divide {
            if e.first_num == 1 {
                low_seen = true;
            }
            if e.first_num == 10 {
                high_seen = true;
            }
        }
        if !operators.contains(&e.sign) {
            operators.push(e.sign);
        }
    }
    assert!(low_seen && high_seen);
    assert_eq!(operators.len(), 4);
}
