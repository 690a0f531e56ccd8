use crate::random::draw_inclusive;
use crate::settings::Settings;
use crate::sign::MathSign;
use crate::text::{int_text, push_int};
use vstd::prelude::*;

verus! {

/// Which of the three quantities of an equation is left blank.
#[derive(Debug, Clone, Copy, PartialEq, Eq, Structural)]
pub enum Blank {
    ResultSlot,
    FirstSlot,
    SecondSlot,
}

/// One practice equation: `first_num sign second_num = result`, with one of
/// the three numbers shown as `?`.
#[derive(Debug)]
pub struct Equation {
    pub first_num: i64,
    pub second_num: i64,
    pub sign: MathSign,
    pub result: i64,
    /// The number that belongs in the blank.
    pub correct_answer: i64,
    /// The equation as shown, with `?` in the blank.
    pub string_representation: String,
}

/// The shown `(first, second, result)` of an equation drawn with operands
/// `first` and `second`. A division is built from the product of the two:
/// the product is shown first and one operand is the divisor, the second
/// drawn one unless `swap` picks the first.
pub open spec fn shown_triple(first: int, sign: MathSign, second: int, swap: bool) -> (
    int,
    int,
    int,
) {
    if sign == MathSign::Divide {
        if swap {
            (first * second, first, second)
        } else {
            (first * second, second, first)
        }
    } else {
        (first, second, sign.apply(first, second))
    }
}

/// The number that the blank hides.
pub open spec fn hidden_value(blank: Blank, a: int, b: int, c: int) -> int {
    match blank {
        Blank::ResultSlot => c,
        Blank::FirstSlot => a,
        Blank::SecondSlot => b,
    }
}

/// A number's place in the text: its decimal form, or `?` when hidden.
pub open spec fn slot_text(v: int, hidden: bool) -> Seq<char> {
    if hidden {
        seq!['?']
    } else {
        int_text(v)
    }
}

/// The text `"{a} {sign} {b} = {c}"` with the blank's number replaced by `?`.
pub open spec fn equation_text(a: int, sign: MathSign, b: int, c: int, blank: Blank) -> Seq<char> {
    slot_text(a, blank == Blank::FirstSlot) + seq![' '] + sign.symbol() + seq![' '] + slot_text(
        b,
        blank == Blank::SecondSlot,
    ) + seq![' ', '=', ' '] + slot_text(c, blank == Blank::ResultSlot)
}

/// The draws a configuration allows: the first operand in `[1, max]`, a
/// listed operator, the second operand in `[1, max]` (in `[1, first]` for a
/// subtraction that may not go negative), and the result as the blank
/// unless operands may be hidden.
pub open spec fn draws_allowed(
    settings: Settings,
    first: int,
    sign: MathSign,
    second: int,
    blank: Blank,
) -> bool {
    &&& 1 <= first <= settings.max_number
    &&& settings.operations@.contains(sign)
    &&& 1 <= second <= (if sign == MathSign::Minus && !settings.can_be_negative {
        first
    } else {
        settings.max_number as int
    })
    &&& (!settings.hide_operand ==> blank == Blank::ResultSlot)
}

impl Equation {
    /// The equation that the given draws produce.
    pub open spec fn composed_of(
        self,
        first: int,
        sign: MathSign,
        second: int,
        swap: bool,
        blank: Blank,
    ) -> bool {
        let (a, b, c) = shown_triple(first, sign, second, swap);
        &&& self.first_num == a
        &&& self.second_num == b
        &&& self.result == c
        &&& self.sign == sign
        &&& self.correct_answer == hidden_value(blank, a, b, c)
        &&& self.string_representation@ == equation_text(a, sign, b, c, blank)
    }

    /// The equation comes from some draws that `settings` allows.
    pub open spec fn generated_from(self, settings: Settings) -> bool {
        exists|first: int, second: int, swap: bool, blank: Blank|
            #![trigger self.composed_of(first, self.sign, second, swap, blank)]
            draws_allowed(settings, first, self.sign, second, blank) && self.composed_of(
                first,
                self.sign,
                second,
                swap,
                blank,
            )
    }

    /// Whether `x` fills the blank correctly.
    pub open spec fn accepts(self, x: int) -> bool {
        x == self.correct_answer
    }

    /// Draws an equation at random under `settings`.
    pub fn new(settings: &Settings) -> (r: Self)
        requires
            settings.wf(),
        ensures
            r.generated_from(*settings),
            r.correct_answer == r.first_num || r.correct_answer == r.second_num
                || r.correct_answer == r.result,
            r.sign != MathSign::Divide ==> r.result == r.sign.apply(
                r.first_num as int,
                r.second_num as int,
            ),
            r.sign == MathSign::Divide ==> r.first_num == r.second_num * r.result,
            r.sign == MathSign::Minus && !settings.can_be_negative ==> r.result >= 0,
            !settings.hide_operand ==> r.correct_answer == r.result,
    {
        let mut rng = rand::thread_rng();
        let first = draw_inclusive(&mut rng, 1, settings.max_number as u64) as i32;
        let index = draw_inclusive(&mut rng, 0, (settings.operations.len() - 1) as u64) as usize;
        let sign = settings.operations[index];
        // a subtraction that may not go negative takes at most the first operand
        let second_max = match sign {
            MathSign::Minus => if !settings.can_be_negative {
                first
            } else {
                settings.max_number
            },
            _ => settings.max_number,
        };
        let second = draw_inclusive(&mut rng, 1, second_max as u64) as i32;
        let swap = match sign {
            MathSign::Divide => draw_inclusive(&mut rng, 0, 1) == 1,
            _ => false,
        };
        let blank = if !settings.hide_operand {
            Blank::ResultSlot
        } else {
            let pick = draw_inclusive(&mut rng, 0, 2);
            if pick == 0 {
                Blank::ResultSlot
            } else if pick == 1 {
                Blank::FirstSlot
            } else {
                Blank::SecondSlot
            }
        };
        let r = Equation::compose(first, sign, second, swap, blank);
        proof {
            assert(settings.operations@.contains(sign)) by {
                assert(settings.operations@[index as int] == sign);
            }
            assert(draws_allowed(*settings, first as int, sign, second as int, blank));
            assert(r.composed_of(first as int, r.sign, second as int, swap, blank));
            lemma_generated_equation_laws(*settings, r);
        }
        r
    }

    /// Builds the equation for given draws: the operands `first` and
    /// `second`, the operator, which operand a division shows as the divisor,
    /// and the blank.
    pub fn compose(first: i32, sign: MathSign, second: i32, swap: bool, blank: Blank) -> (r: Self)
        ensures
            r.composed_of(first as int, sign, second as int, swap, blank),
    {
        let mut equation = Equation {
            first_num: first as i64,
            second_num: second as i64,
            sign,
            result: 0,
            correct_answer: 0,
            string_representation: String::new(),
        };
        equation.calculate(swap);
        equation.hide_some_values(blank);
        equation
    }

    /// Evaluates the operator and, for a division, reshuffles the product and
    /// its factors into `product / divisor = quotient`.
    fn calculate(&mut self, swap: bool)
        requires
            i32::MIN <= old(self).first_num <= i32::MAX,
            i32::MIN <= old(self).second_num <= i32::MAX,
        ensures
            (final(self).first_num as int, final(self).second_num as int, final(self).result as int)
                == shown_triple(
                old(self).first_num as int,
                old(self).sign,
                old(self).second_num as int,
                swap,
            ),
            final(self).sign == old(self).sign,
    {
        proof {
            let a = self.first_num as int;
            let b = self.second_num as int;
            assert(i32::MIN * i32::MAX <= a * b <= i32::MIN * i32::MIN) by (nonlinear_arith)
                requires
                    i32::MIN <= a <= i32::MAX,
                    i32::MIN <= b <= i32::MAX,
            ;
        }
        self.result = match self.sign {
            MathSign::Plus => self.first_num + self.second_num,
            MathSign::Minus => self.first_num - self.second_num,
            MathSign::Multiply => self.first_num * self.second_num,
            MathSign::Divide => self.first_num * self.second_num,
        };
        if let MathSign::Divide = self.sign {
            let product = self.result;
            if swap {
                self.result = self.second_num;
                self.second_num = self.first_num;
            } else {
                self.result = self.first_num;
            }
            self.first_num = product;
        }
    }

    /// Fills in the answer and the text for the given blank.
    fn hide_some_values(&mut self, blank: Blank)
        ensures
            final(self).first_num == old(self).first_num,
            final(self).second_num == old(self).second_num,
            final(self).result == old(self).result,
            final(self).sign == old(self).sign,
            final(self).correct_answer == hidden_value(
                blank,
                old(self).first_num as int,
                old(self).second_num as int,
                old(self).result as int,
            ),
            final(self).string_representation@ == equation_text(
                old(self).first_num as int,
                old(self).sign,
                old(self).second_num as int,
                old(self).result as int,
                blank,
            ),
    {
        self.correct_answer = match blank {
            Blank::ResultSlot => self.result,
            Blank::FirstSlot => self.first_num,
            Blank::SecondSlot => self.second_num,
        };
        proof {
            reveal_strlit("?");
            reveal_strlit(" ");
            reveal_strlit(" = ");
        }
        let mut text = String::new();
        if blank == Blank::FirstSlot {
            text.append("?");
        } else {
            push_int(&mut text, self.first_num);
        }
        text.append(" ");
        text.append(self.sign.value());
        text.append(" ");
        if blank == Blank::SecondSlot {
            text.append("?");
        } else {
            push_int(&mut text, self.second_num);
        }
        text.append(" = ");
        if blank == Blank::ResultSlot {
            text.append("?");
        } else {
            push_int(&mut text, self.result);
        }
        proof {
            assert(text@ =~= equation_text(
                self.first_num as int,
                self.sign,
                self.second_num as int,
                self.result as int,
                blank,
            ));
        }
        self.string_representation = text;
    }

    /// Whether `x` is the number that belongs in the blank.
    pub fn check_answer(&self, x: i64) -> (r: bool)
        ensures
            r == self.accepts(x as int),
    {
        x == self.correct_answer
    }
}

/// Every equation generated under a usable configuration hides one of its
/// own three numbers; a non-division equation's result is the operator
/// applied to its operands; a division shows an exact quotient, its first
/// number being the product of the other two; and a subtraction that may not
/// go negative has a non-negative result.
pub proof fn lemma_generated_equation_laws(settings: Settings, e: Equation)
    requires
        settings.wf(),
        e.generated_from(settings),
    ensures
        e.correct_answer == e.first_num || e.correct_answer == e.second_num || e.correct_answer
            == e.result,
        e.sign != MathSign::Divide ==> e.result == e.sign.apply(
            e.first_num as int,
            e.second_num as int,
        ),
        e.sign == MathSign::Divide ==> e.first_num == e.second_num * e.result,
        e.sign == MathSign::Minus && !settings.can_be_negative ==> e.result >= 0,
{
    let (first, second, swap, blank) = choose|first: int, second: int, swap: bool, blank: Blank|
        #![trigger e.composed_of(first, e.sign, second, swap, blank)]
        draws_allowed(settings, first, e.sign, second, blank) && e.composed_of(
            first,
            e.sign,
            second,
            swap,
            blank,
        );
    if e.sign == MathSign::Divide {
        assert(first * second == second * first) by (nonlinear_arith);
    }
}

/// The blank's own number is accepted, and that number plus one is not.
pub proof fn lemma_accepts_only_the_answer(e: Equation)
    ensures
        e.accepts(e.correct_answer as int),
        !e.accepts(e.correct_answer + 1),
{
}

} // verus!
