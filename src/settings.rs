use crate::sign::MathSign;
use crate::text::{parse_positive_i32, positive_i32_of};
use vstd::prelude::*;

verus! {

/// The largest operand used when the given one is unusable.
pub const DEFAULT_MAX_NUMBER: i32 = 100;

/// The constraints equations are generated under.
pub struct Settings {
    /// Inclusive upper bound of a drawn operand.
    pub max_number: i32,
    /// The operators to draw from, in a fixed order.
    pub operations: Vec<MathSign>,
    /// Whether the blank may fall on an operand instead of the result.
    pub hide_operand: bool,
    /// Whether a subtraction may have a negative result.
    pub can_be_negative: bool,
}

/// The operator list chosen by the three operator flags: `+` and `-`, then
/// `*`, then `/`; just `+` when no flag is set.
pub open spec fn operations_for(include_add_sub: bool, include_mul: bool, include_div: bool) -> Seq<
    MathSign,
> {
    let chosen = (if include_add_sub {
        seq![MathSign::Plus, MathSign::Minus]
    } else {
        Seq::empty()
    }) + (if include_mul {
        seq![MathSign::Multiply]
    } else {
        Seq::empty()
    }) + (if include_div {
        seq![MathSign::Divide]
    } else {
        Seq::empty()
    });
    if chosen.len() == 0 {
        seq![MathSign::Plus]
    } else {
        chosen
    }
}

/// The largest operand a raw text gives: the positive `i32` it spells, or
/// the default when it spells none.
pub open spec fn max_number_from_raw(raw: Seq<char>) -> int {
    match positive_i32_of(raw) {
        Some(v) => v,
        None => DEFAULT_MAX_NUMBER as int,
    }
}

impl Settings {
    /// A usable configuration: a positive bound and at least one operator.
    pub open spec fn wf(&self) -> bool {
        self.max_number >= 1 && self.operations@.len() >= 1
    }

    /// Builds a configuration. A non-positive `max_number` falls back to the
    /// default, and an empty operator choice to addition alone.
    pub fn new(
        max_number: i32,
        include_add_sub: bool,
        include_mul: bool,
        include_div: bool,
        hide_operand: bool,
        can_be_negative: bool,
    ) -> (r: Self)
        ensures
            r.wf(),
            r.max_number == (if max_number >= 1 {
                max_number
            } else {
                DEFAULT_MAX_NUMBER
            }),
            r.operations@ == operations_for(include_add_sub, include_mul, include_div),
            r.hide_operand == hide_operand,
            r.can_be_negative == can_be_negative,
    {
        let mut operations_vector: Vec<MathSign> = Vec::new();
        if include_add_sub {
            operations_vector.push(MathSign::Plus);
            operations_vector.push(MathSign::Minus);
        }
        if include_mul {
            operations_vector.push(MathSign::Multiply);
        }
        if include_div {
            operations_vector.push(MathSign::Divide);
        }
        // never leave the generator without an operator
        if operations_vector.len() == 0 {
            operations_vector.push(MathSign::Plus);
        }
        proof {
            assert(operations_vector@ =~= operations_for(include_add_sub, include_mul, include_div));
        }
        let max_number = if max_number >= 1 {
            max_number
        } else {
            DEFAULT_MAX_NUMBER
        };
        Settings { max_number, operations: operations_vector, hide_operand, can_be_negative }
    }

    /// Builds a configuration from the raw text of the largest operand: text
    /// that spells no positive `i32` gives the default.
    pub fn from_raw(
        max_number_raw: &str,
        include_add_sub: bool,
        include_mul: bool,
        include_div: bool,
        hide_operand: bool,
        can_be_negative: bool,
    ) -> (r: Self)
        ensures
            r.wf(),
            r.max_number == max_number_from_raw(max_number_raw@),
            r.operations@ == operations_for(include_add_sub, include_mul, include_div),
            r.hide_operand == hide_operand,
            r.can_be_negative == can_be_negative,
    {
        let max_number = match parse_positive_i32(max_number_raw) {
            Some(v) => v,
            None => DEFAULT_MAX_NUMBER,
        };
        Settings::new(
            max_number,
            include_add_sub,
            include_mul,
            include_div,
            hide_operand,
            can_be_negative,
        )
    }
}

} // verus!
