//! The record of one calculation.

use crate::number::Number;
use crate::request::Operands;
use vstd::prelude::*;

verus! {

/// What floating-point arithmetic gave for a pair of operands: sum,
/// difference and product as values, the quotient as its decimal rendering.
#[derive(Clone, Debug, PartialEq, Eq)]
pub struct Evaluation {
    pub sum: Number,
    pub difference: Number,
    pub product: Number,
    pub quotient: String,
}

/// The record of one calculation: the operands and the four results.
///
/// The quotient is text, never a number, so that a division by zero can be
/// recorded: `division` then holds [`UNDEFINED_DIVISION`].
#[derive(Clone, Debug, PartialEq, Eq)]
pub struct Calculation {
    pub num1: Number,
    pub num2: Number,
    pub addition: Number,
    pub subtraction: Number,
    pub multiplication: Number,
    pub division: String,
}

/// An [`Evaluation`] as a mathematical value.
pub struct EvaluationView {
    pub sum: Number,
    pub difference: Number,
    pub product: Number,
    pub quotient: Seq<char>,
}

/// A [`Calculation`] as a mathematical value.
pub struct CalculationView {
    pub num1: Number,
    pub num2: Number,
    pub addition: Number,
    pub subtraction: Number,
    pub multiplication: Number,
    pub division: Seq<char>,
}

impl View for Evaluation {
    type V = EvaluationView;

    open spec fn view(&self) -> EvaluationView {
        EvaluationView {
            sum: self.sum,
            difference: self.difference,
            product: self.product,
            quotient: self.quotient@,
        }
    }
}

impl View for Calculation {
    type V = CalculationView;

    open spec fn view(&self) -> CalculationView {
        CalculationView {
            num1: self.num1,
            num2: self.num2,
            addition: self.addition,
            subtraction: self.subtraction,
            multiplication: self.multiplication,
            division: self.division@,
        }
    }
}

impl CalculationView {
    /// Whether two records hold the same values: the same numbers, whatever
    /// the sign of a zero, and the same text.
    pub open spec fn same_values(self, other: CalculationView) -> bool {
        &&& self.num1.same_value_spec(other.num1)
        &&& self.num2.same_value_spec(other.num2)
        &&& self.addition.same_value_spec(other.addition)
        &&& self.subtraction.same_value_spec(other.subtraction)
        &&& self.multiplication.same_value_spec(other.multiplication)
        &&& self.division == other.division
    }
}

impl Calculation {
    /// Whether two records hold the same values: the same numbers, whatever
    /// the sign of a zero, and the same text.
    pub fn same_values(&self, other: &Calculation) -> (same: bool)
        ensures
            same == self@.same_values(other@),
    {
        self.num1.same_value(other.num1) && self.num2.same_value(other.num2)
            && self.addition.same_value(other.addition) && self.subtraction.same_value(
            other.subtraction,
        ) && self.multiplication.same_value(other.multiplication) && self.division
            == other.division
    }
}

/// What `division` holds in place of a quotient when the divisor is zero.
pub const UNDEFINED_DIVISION: &'static str = "undefined (division by zero)";

/// The text of the `division` field: the sentinel where the divisor is zero,
/// the rendering of the quotient otherwise.
pub open spec fn division_text(divisor: Number, quotient: Seq<char>) -> Seq<char> {
    if divisor.is_zero_spec() {
        UNDEFINED_DIVISION@
    } else {
        quotient
    }
}

/// The record of a calculation on `operands` whose arithmetic gave
/// `evaluation`.
pub open spec fn record_of(operands: Operands, evaluation: EvaluationView) -> CalculationView {
    CalculationView {
        num1: operands.num1,
        num2: operands.num2,
        addition: evaluation.sum,
        subtraction: evaluation.difference,
        multiplication: evaluation.product,
        division: division_text(operands.num2, evaluation.quotient),
    }
}

/// The rule of the `division` field, as far as it can be told without
/// arithmetic: a record with a zero divisor holds the sentinel.
pub open spec fn keeps_division_rule(record: CalculationView) -> bool {
    record.num2.is_zero_spec() ==> record.division == UNDEFINED_DIVISION@
}

/// Records of the same values are the same to the rule of the `division`
/// field, and holding the same values is an equivalence.
pub proof fn law_same_values_is_an_equivalence(
    a: CalculationView,
    b: CalculationView,
    c: CalculationView,
)
    ensures
        a.same_values(a),
        a.same_values(b) == b.same_values(a),
        a.same_values(b) && b.same_values(c) ==> a.same_values(c),
        a.same_values(b) ==> keeps_division_rule(a) == keeps_division_rule(b),
{
}

} // verus!
