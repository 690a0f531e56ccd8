use vstd::prelude::*;

verus! {

/// One of the four arithmetic operators an equation can use.
#[derive(Debug, Clone, Copy, PartialEq, Eq, Structural)]
pub enum MathSign {
    Plus,
    Minus,
    Multiply,
    Divide,
}

impl MathSign {
    /// The symbol that stands for the operator in an equation's text.
    pub open spec fn symbol(self) -> Seq<char> {
        match self {
            MathSign::Plus => seq!['+'],
            MathSign::Minus => seq!['-'],
            MathSign::Multiply => seq!['*'],
            MathSign::Divide => seq!['/'],
        }
    }

    /// What the operator makes of two operands. Division is never evaluated
    /// directly: a division equation is built from a product.
    pub open spec fn apply(self, a: int, b: int) -> int {
        match self {
            MathSign::Plus => a + b,
            MathSign::Minus => a - b,
            MathSign::Multiply => a * b,
            MathSign::Divide => a * b,
        }
    }

    /// The display symbol of the operator.
    pub fn value(&self) -> (r: &'static str)
        ensures
            r@ == self.symbol(),
    {
        match *self {
            MathSign::Plus => {
                proof {
                    reveal_strlit("+");
                }
                "+"
            },
            MathSign::Minus => {
                proof {
                    reveal_strlit("-");
                }
                "-"
            },
            MathSign::Multiply => {
                proof {
                    reveal_strlit("*");
                }
                "*"
            },
            MathSign::Divide => {
                proof {
                    reveal_strlit("/");
                }
                "/"
            },
        }
    }
}

} // verus!
