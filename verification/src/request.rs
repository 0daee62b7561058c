//! A `calculate` request, as either service receives it.

use crate::error::ServiceError;
use crate::number::Number;
use vstd::prelude::*;

verus! {

/// The two operands of a calculation.
#[derive(Clone, Copy, Debug, PartialEq, Eq, Structural)]
pub struct Operands {
    pub num1: Number,
    pub num2: Number,
}

/// The operands of a request whose two parameters were decoded to `num1` and
/// `num2`, `None` standing for a parameter that is missing or is no number.
/// Both are required.
pub open spec fn required_operands(num1: Option<Number>, num2: Option<Number>) -> Result<
    Operands,
    ServiceError,
> {
    match (num1, num2) {
        (Some(a), Some(b)) => Ok(Operands { num1: a, num2: b }),
        _ => Err(ServiceError::ClientInput),
    }
}

/// The operands of a `calculate` request, or its rejection as a client error
/// where a parameter is missing or is no number.
pub fn require_operands(num1: Option<Number>, num2: Option<Number>) -> (operands: Result<
    Operands,
    ServiceError,
>)
    ensures
        operands == required_operands(num1, num2),
        operands is Ok <==> num1 is Some && num2 is Some,
        operands matches Ok(both) ==> num1 == Some(both.num1) && num2 == Some(both.num2),
        operands matches Err(error) ==> error == ServiceError::ClientInput,
{
    match (num1, num2) {
        (Some(a), Some(b)) => Ok(Operands { num1: a, num2: b }),
        _ => Err(ServiceError::ClientInput),
    }
}

} // verus!
