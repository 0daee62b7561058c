//! The store of the compute-and-store service: one SQLite file with one
//! table, a row per answered calculation. The service runs these statements
//! and no others, so a row is never changed or removed.

use vstd::prelude::*;

verus! {

/// The file that holds the store.
pub const STORE_FILE: &'static str = "calculations.db";

/// Creates the table where it does not exist yet; run at every start. The
/// identity key is the store's own and never leaves it.
pub const CREATE_TABLE: &'static str = "CREATE TABLE IF NOT EXISTS calculations (
            id INTEGER PRIMARY KEY,
            num1 REAL NOT NULL,
            num2 REAL NOT NULL,
            addition REAL NOT NULL,
            subtraction REAL NOT NULL,
            multiplication REAL NOT NULL,
            division TEXT
        )";

/// Appends one row. The six parameters are the fields of a record, in the
/// order in which the record declares them.
pub const INSERT_ROW: &'static str =
    "INSERT INTO calculations (num1, num2, addition, subtraction, multiplication, division) VALUES (?1, ?2, ?3, ?4, ?5, ?6)";

/// Reads every row, in whatever order the store yields them. The six columns
/// are the fields of a record, in the order in which the record declares
/// them.
pub const SELECT_ROWS: &'static str =
    "SELECT num1, num2, addition, subtraction, multiplication, division FROM calculations";

} // verus!
