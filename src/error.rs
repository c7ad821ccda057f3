//! The errors of row access and statement resolution.

use vstd::prelude::*;
use postgres_types::{Format, Type};
use crate::index::ColumnIndex;

verus! {

/// Why a row could not be built, a value not be read, or a statement not be used.
#[derive(Debug)]
pub enum Error {
    /// The data row's fields are malformed or do not match the columns.
    Parse,
    /// The index designates no column.
    Column(ColumnIndex),
    /// The row's values are not in the binary encoding, so they cannot be decoded.
    Format,
    /// The requested type cannot be decoded from the column's declared type.
    WrongType { column: usize, declared: Type },
    /// The decoder refused the column's value.
    FromSql { column: usize, cause: String },
    /// A prepared statement was asked for results in an encoding other than its own.
    Encoding { requested: Format, held: Format },
}

} // verus!
