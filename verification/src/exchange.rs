//! The store as the compute-and-store service leaves it.
//!
//! The service owns its store and touches it in two ways only: it asks for
//! one row to be appended per admitted `calculate` request, and it scans all
//! rows per `history` request. This module states what that amounts to over
//! any run of requests, for a store that keeps the rows it has taken, in the
//! order in which it took them, and gives them back with the values they had
//! (not always with the sign of a zero: see
//! [`Number::same_value`](crate::number::Number::same_value)).

use crate::backend::{conclusion, history_of};
use crate::error::{is_client_error, ServiceError};
use crate::number::Number;
use crate::record::{
    keeps_division_rule, record_of, Calculation, CalculationView, EvaluationView,
};
use crate::request::required_operands;
use vstd::prelude::*;

verus! {

/// What the world outside the service contributes to one `calculate`
/// exchange: the decoded parameters, what floating-point arithmetic gave for
/// them, and whether the store took the row it was asked to append.
pub struct Exchange {
    pub num1: Option<Number>,
    pub num2: Option<Number>,
    pub evaluation: EvaluationView,
    pub inserted: bool,
}

impl Exchange {
    /// The row that the service asks the store to append: none for a request
    /// that it rejects.
    pub open spec fn row(self) -> Option<CalculationView> {
        match required_operands(self.num1, self.num2) {
            Ok(operands) => Some(record_of(operands, self.evaluation)),
            Err(_) => None,
        }
    }

    /// The reply that the exchange ends with.
    pub open spec fn reply(self) -> Result<CalculationView, ServiceError> {
        match required_operands(self.num1, self.num2) {
            Ok(operands) => conclusion(record_of(operands, self.evaluation), self.inserted),
            Err(error) => Err(error),
        }
    }

    /// The rows of the store after the exchange, `rows` being its rows
    /// before.
    pub open spec fn rows_after(self, rows: Seq<CalculationView>) -> Seq<CalculationView> {
        match self.row() {
            Some(row) => if self.inserted {
                rows.push(row)
            } else {
                rows
            },
            None => rows,
        }
    }
}

/// The rows of the store after a run of exchanges, one after the other.
pub open spec fn run(rows: Seq<CalculationView>, exchanges: Seq<Exchange>) -> Seq<CalculationView>
    decreases exchanges.len(),
{
    if exchanges.len() == 0 {
        rows
    } else {
        exchanges.last().rows_after(run(rows, exchanges.drop_last()))
    }
}

/// How many exchanges of a run were answered with a record.
pub open spec fn successes(exchanges: Seq<Exchange>) -> nat
    decreases exchanges.len(),
{
    if exchanges.len() == 0 {
        0
    } else {
        successes(exchanges.drop_last()) + if exchanges.last().reply() is Ok {
            1nat
        } else {
            0nat
        }
    }
}

/// Whether `scan` reads the store whole: every row of `rows`, in place and
/// with its values.
pub open spec fn reads_whole(scan: Seq<Option<Calculation>>, rows: Seq<CalculationView>) -> bool {
    &&& scan.len() == rows.len()
    &&& forall|i: int|
        0 <= i < scan.len() ==> (#[trigger] scan[i]) is Some && scan[i]->0@.same_values(rows[i])
}

/// An exchange that is answered with a record leaves exactly one new row, and
/// the row is that record; an exchange that is answered with a failure leaves
/// the store as it was.
pub proof fn law_one_row_per_record(exchange: Exchange, rows: Seq<CalculationView>)
    ensures
        exchange.rows_after(rows) == match exchange.reply() {
            Ok(record) => rows.push(record),
            Err(_) => rows,
        },
{
}

/// A request that lacks a parameter is rejected as a client error and leaves
/// no row.
pub proof fn law_rejected_request_leaves_no_row(exchange: Exchange, rows: Seq<CalculationView>)
    requires
        exchange.num1 is None || exchange.num2 is None,
    ensures
        exchange.reply() == Err::<CalculationView, ServiceError>(ServiceError::ClientInput),
        is_client_error(ServiceError::ClientInput.status_spec()),
        exchange.rows_after(rows) == rows,
{
}

/// Whatever the values, a run of exchanges appends exactly as many rows as it
/// had exchanges answered with a record, and keeps the rows that were there:
/// no row is changed or removed. A run of `n` exchanges that were all
/// answered with a record appends exactly `n` rows.
pub proof fn law_run_appends_one_row_per_record(
    rows: Seq<CalculationView>,
    exchanges: Seq<Exchange>,
)
    ensures
        run(rows, exchanges).len() == rows.len() + successes(exchanges),
        run(rows, exchanges).subrange(0, rows.len() as int) == rows,
        successes(exchanges) <= exchanges.len(),
        (forall|i: int| 0 <= i < exchanges.len() ==> (#[trigger] exchanges[i]).reply() is Ok)
            ==> run(rows, exchanges).len() == rows.len() + exchanges.len(),
    decreases exchanges.len(),
{
    if exchanges.len() > 0 {
        let earlier = exchanges.drop_last();
        law_run_appends_one_row_per_record(rows, earlier);
        if forall|i: int| 0 <= i < exchanges.len() ==> (#[trigger] exchanges[i]).reply() is Ok {
            assert forall|i: int| 0 <= i < earlier.len() implies (#[trigger] earlier[i]).reply()
                is Ok by {
                assert(earlier[i] == exchanges[i]);
            }
            assert(exchanges.last() == exchanges[exchanges.len() - 1]);
        }
    }
}

/// The rule of the `division` field holds of every row that the service
/// appends: a store whose rows all keep it has only such rows after any run
/// of exchanges.
pub proof fn law_run_keeps_division_rule(rows: Seq<CalculationView>, exchanges: Seq<Exchange>)
    requires
        forall|j: int| 0 <= j < rows.len() ==> keeps_division_rule(#[trigger] rows[j]),
    ensures
        forall|j: int|
            0 <= j < run(rows, exchanges).len() ==> keeps_division_rule(
                #[trigger] run(rows, exchanges)[j],
            ),
    decreases exchanges.len(),
{
    if exchanges.len() > 0 {
        let before = run(rows, exchanges.drop_last());
        let after = run(rows, exchanges);
        law_run_keeps_division_rule(rows, exchanges.drop_last());
        assert forall|j: int| 0 <= j < after.len() implies keeps_division_rule(
            #[trigger] after[j],
        ) by {
            if j < before.len() {
                assert(after[j] == before[j]);
            }
        }
    }
}

/// Every record that an exchange of a run was answered with is a row of the
/// store after the run.
pub proof fn law_run_keeps_every_record(
    rows: Seq<CalculationView>,
    exchanges: Seq<Exchange>,
    i: int,
)
    requires
        0 <= i < exchanges.len(),
        exchanges[i].reply() is Ok,
    ensures
        run(rows, exchanges).contains(exchanges[i].reply()->Ok_0),
    decreases exchanges.len(),
{
    let before = run(rows, exchanges.drop_last());
    let after = run(rows, exchanges);
    if i == exchanges.len() - 1 {
        assert(after == before.push(exchanges[i].reply()->Ok_0));
        assert(after[before.len() as int] == exchanges[i].reply()->Ok_0);
    } else {
        law_run_keeps_every_record(rows, exchanges.drop_last(), i);
        let j = choose|j: int| 0 <= j < before.len() && before[j] == exchanges[i].reply()->Ok_0;
        assert(after[j] == before[j]);
    }
}

/// A history that reads the store whole after a run of exchanges is
/// delivered, has at least as many records as the run had exchanges answered
/// with a record, and holds the values of each of those records.
pub proof fn law_history_holds_every_record(
    rows: Seq<CalculationView>,
    exchanges: Seq<Exchange>,
    scan: Seq<Option<Calculation>>,
    i: int,
)
    requires
        reads_whole(scan, run(rows, exchanges)),
        0 <= i < exchanges.len(),
        exchanges[i].reply() is Ok,
    ensures
        history_of(Some(scan)) is Ok,
        history_of(Some(scan))->Ok_0.len() == run(rows, exchanges).len(),
        history_of(Some(scan))->Ok_0.len() >= successes(exchanges),
        exists|j: int|
            0 <= j < history_of(Some(scan))->Ok_0.len() && (#[trigger] history_of(
                Some(scan),
            )->Ok_0[j])@.same_values(exchanges[i].reply()->Ok_0),
{
    let store = run(rows, exchanges);
    let record = exchanges[i].reply()->Ok_0;
    law_run_appends_one_row_per_record(rows, exchanges);
    law_run_keeps_every_record(rows, exchanges, i);
    let j = choose|j: int| 0 <= j < store.len() && store[j] == record;
    assert(scan[j] is Some);
    assert(history_of(Some(scan))->Ok_0[j]@.same_values(record));
}

/// Every record of a history that reads whole a store whose rows keep the
/// rule of the `division` field keeps that rule.
pub proof fn law_history_keeps_division_rule(
    rows: Seq<CalculationView>,
    scan: Seq<Option<Calculation>>,
    j: int,
)
    requires
        reads_whole(scan, rows),
        forall|k: int| 0 <= k < rows.len() ==> keeps_division_rule(#[trigger] rows[k]),
        0 <= j < scan.len(),
    ensures
        history_of(Some(scan)) is Ok,
        keeps_division_rule(history_of(Some(scan))->Ok_0[j]@),
{
    assert(scan[j] is Some);
    assert(keeps_division_rule(rows[j]));
}

} // verus!
