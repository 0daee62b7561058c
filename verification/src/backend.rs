//! The compute-and-store service: what it answers, and what it asks of its
//! store.

use crate::error::ServiceError;
use crate::record::{keeps_division_rule, record_of, Calculation, Evaluation, UNDEFINED_DIVISION};
use crate::request::Operands;
use vstd::prelude::*;

verus! {

/// The reply to a request whose record the store was asked to append: the
/// record where the store took it, a storage failure where it did not.
pub open spec fn conclusion<R>(record: R, inserted: bool) -> Result<R, ServiceError> {
    if inserted {
        Ok(record)
    } else {
        Err(ServiceError::Storage)
    }
}

/// The rows of a scan as a mathematical value.
pub open spec fn scan_rows(scan: Option<Vec<Option<Calculation>>>) -> Option<
    Seq<Option<Calculation>>,
> {
    match scan {
        Some(rows) => Some(rows@),
        None => None,
    }
}

/// Whether every row of a scan could be read.
pub open spec fn readable(rows: Seq<Option<Calculation>>) -> bool {
    forall|i: int| 0 <= i < rows.len() ==> (#[trigger] rows[i]) is Some
}

/// The history that a scan of the store amounts to. `scan` is `None` where
/// the scan could not be started; else it holds, in the order in which the
/// store yielded them, the rows, `None` standing for a row that could not be
/// read. A history is all rows or a failure, never a part.
pub open spec fn history_of(scan: Option<Seq<Option<Calculation>>>) -> Result<
    Seq<Calculation>,
    ServiceError,
> {
    match scan {
        Some(rows) => if readable(rows) {
            Ok(rows.map_values(|row: Option<Calculation>| row->0))
        } else {
            Err(ServiceError::Storage)
        },
        None => Err(ServiceError::Storage),
    }
}

/// Builds the record of a calculation from its operands and from what
/// floating-point arithmetic gave for them. The quotient is recorded only
/// where the divisor is not zero.
pub fn calculate(operands: Operands, evaluation: Evaluation) -> (record: Calculation)
    ensures
        record@ == record_of(operands, evaluation@),
        operands.num2.is_zero() ==> record.division@ == UNDEFINED_DIVISION@,
        !operands.num2.is_zero() ==> record.division@ == evaluation.quotient@,
        keeps_division_rule(record@),
{
    let division = if operands.num2.is_zero() {
        String::from_str(UNDEFINED_DIVISION)
    } else {
        evaluation.quotient
    };
    Calculation {
        num1: operands.num1,
        num2: operands.num2,
        addition: evaluation.sum,
        subtraction: evaluation.difference,
        multiplication: evaluation.product,
        division,
    }
}

/// The reply to a `calculate` request once the store has been asked to append
/// `record`: the record itself where the store took it, a storage failure
/// where it did not.
pub fn conclude(record: Calculation, inserted: bool) -> (reply: Result<Calculation, ServiceError>)
    ensures
        reply == conclusion(record, inserted),
{
    if inserted {
        Ok(record)
    } else {
        Err(ServiceError::Storage)
    }
}

/// The reply to a `history` request, from what a scan of the store yielded
/// (see [`history_of`]).
pub fn get_history(scan: Option<Vec<Option<Calculation>>>) -> (reply: Result<
    Vec<Calculation>,
    ServiceError,
>)
    ensures
        match reply {
            Ok(history) => history_of(scan_rows(scan)) == Ok::<Seq<Calculation>, ServiceError>(
                history@,
            ),
            Err(error) => history_of(scan_rows(scan)) == Err::<Seq<Calculation>, ServiceError>(
                error,
            ),
        },
        reply is Ok <==> (scan matches Some(rows) && readable(rows@)),
        reply matches Ok(history) ==> scan->0@ == history@.map_values(
            |record: Calculation| Some(record),
        ),
        reply matches Err(error) ==> error == ServiceError::Storage,
{
    let rows = match scan {
        Some(rows) => rows,
        None => {
            return Err(ServiceError::Storage);
        },
    };
    let ghost all = rows@;
    let mut history: Vec<Calculation> = Vec::new();
    for row in it: rows
        invariant
            scan_rows(scan) == Some(all),
            it.seq() == all,
            history@.len() == it.index(),
            forall|i: int| 0 <= i < it.index() ==> #[trigger] all[i] == Some(history@[i]),
    {
        match row {
            Some(record) => {
                history.push(record);
            },
            None => {
                return Err(ServiceError::Storage);
            },
        }
    }
    assert(history@ =~= all.map_values(|row: Option<Calculation>| row->0));
    assert(all =~= history@.map_values(|record: Calculation| Some(record)));
    Ok(history)
}

} // verus!
