//! Row decoding and column resolution for a PostgreSQL client.
//!
//! A [`Row`] holds one data-row message together with the column metadata of
//! the statement that produced it. Fields are located once, when the row is
//! built, and are then looked up by position or by name. A
//! [`ToStatementType`] joins prepared statements and query text into one
//! request, checked against the result encoding asked for.

mod error;
mod index;
mod row;
mod to_statement;
mod types;

pub use error::Error;
pub use index::{AsName, ColumnIndex, IndexView, RowIndex};
pub use row::{Row, SimpleQueryRow};
pub use to_statement::{Resolution, ToStatement, ToStatementType};
pub use types::{formats_equal, Column, SimpleColumn, Statement};
