//! One request type for a prepared statement or query text, and its
//! resolution to a statement that can be executed.

use vstd::prelude::*;
use postgres_types::Format;
use crate::error::Error;
use crate::types::{formats_equal, same_format, Statement};

verus! {

/// Restricts [`ToStatement`] to the types that this crate implements it for.
pub trait Sealed {
}

/// A request to execute: a prepared statement, or query text, each with the
/// encoding that results should come in.
pub enum ToStatementType<'a> {
    Statement(Format, &'a Statement),
    Query(Format, &'a str),
}

/// What a request resolves to: a statement ready to execute, or query text
/// that must first be prepared for the given encoding.
pub enum Resolution<'a> {
    Ready(Statement),
    Prepare(&'a str, Format),
}

impl<'a> ToStatementType<'a> {
    /// Resolves the request. A prepared statement is reused, as the same
    /// statement, when it was prepared for the requested encoding, and fails
    /// with [`Error::Encoding`] otherwise; query text is handed on to be
    /// prepared for the requested encoding, with no check.
    pub fn into_statement(self) -> (r: Result<Resolution<'a>, Error>)
        ensures
            match self {
                ToStatementType::Statement(requested, s) => if same_format(
                    requested,
                    s.format_spec(),
                ) {
                    r matches Ok(Resolution::Ready(t)) && t == *s
                } else {
                    r matches Err(Error::Encoding { requested: req, held }) && req == requested
                        && held == s.format_spec()
                },
                ToStatementType::Query(requested, q) => r matches Ok(Resolution::Prepare(t, f))
                    && t@ == q@ && f == requested,
            },
    {
        match self {
            ToStatementType::Statement(result_format, s) => {
                if !formats_equal(result_format, s.result_format()) {
                    Err(Error::Encoding { requested: result_format, held: s.result_format() })
                } else {
                    Ok(Resolution::Ready(s.share()))
                }
            },
            ToStatementType::Query(result_format, s) => Ok(Resolution::Prepare(s, result_format)),
        }
    }
}

/// What a request designates: a prepared statement, or query text.
pub enum Target {
    Prepared(Statement),
    Text(Seq<char>),
}

/// A type that can be executed: a prepared statement or query text.
pub trait ToStatement: Sealed {
    /// What this value designates.
    spec fn target(&self) -> Target;

    /// A request for this value with results in `result_format`.
    fn __convert(&self, result_format: Format) -> (r: ToStatementType<'_>)
        ensures
            match self.target() {
                Target::Prepared(s) => r matches ToStatementType::Statement(f, t) && f
                    == result_format && *t == s,
                Target::Text(q) => r matches ToStatementType::Query(f, t) && f == result_format
                    && t@ == q,
            },
    ;
}

impl ToStatement for Statement {
    open spec fn target(&self) -> Target {
        Target::Prepared(*self)
    }

    fn __convert(&self, result_format: Format) -> (r: ToStatementType<'_>) {
        ToStatementType::Statement(result_format, self)
    }
}

impl Sealed for Statement {
}

impl ToStatement for str {
    open spec fn target(&self) -> Target {
        Target::Text(self@)
    }

    fn __convert(&self, result_format: Format) -> (r: ToStatementType<'_>) {
        ToStatementType::Query(result_format, self)
    }
}

impl Sealed for str {
}

impl ToStatement for String {
    open spec fn target(&self) -> Target {
        Target::Text(self@)
    }

    fn __convert(&self, result_format: Format) -> (r: ToStatementType<'_>) {
        ToStatementType::Query(result_format, self.as_str())
    }
}

impl Sealed for String {
}

} // verus!
