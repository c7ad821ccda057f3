//! Column metadata and prepared statements, as rows and lookups read them.

use std::sync::Arc;
use vstd::prelude::*;
use postgres_types::{Format, Type};
use crate::index::AsName;

verus! {

/// A PostgreSQL type; opaque here, handed through to the decoders.
#[verifier::external_type_specification]
#[verifier::external_body]
pub struct ExType(Type);

/// The wire encoding of values: text or binary.
#[verifier::external_type_specification]
pub struct ExFormat(Format);

/// Relies on the derived `Clone` of `postgres_types::Type`: the clone is the same type.
pub assume_specification[ <Type as Clone>::clone ](t: &Type) -> (r: Type)
    ensures
        r == *t,
;

/// Whether two wire encodings are the same.
pub open spec fn same_format(a: Format, b: Format) -> bool {
    match (a, b) {
        (Format::Text, Format::Text) => true,
        (Format::Binary, Format::Binary) => true,
        _ => false,
    }
}

/// Decides [`same_format`].
pub fn formats_equal(a: Format, b: Format) -> (r: bool)
    ensures
        r == same_format(a, b),
{
    match (a, b) {
        (Format::Text, Format::Text) => true,
        (Format::Binary, Format::Binary) => true,
        _ => false,
    }
}

/// A column of a prepared statement: its name and its declared type.
#[derive(Clone, Debug)]
pub struct Column {
    name: String,
    type_: Type,
}

impl Column {
    pub closed spec fn name_spec(&self) -> Seq<char> {
        self.name@
    }

    pub closed spec fn type_spec(&self) -> Type {
        self.type_
    }

    pub fn new(name: String, type_: Type) -> (r: Column)
        ensures
            r.name_spec() == name@,
            r.type_spec() == type_,
    {
        Column { name, type_ }
    }

    /// Returns the name of the column.
    pub fn name(&self) -> (r: &str)
        ensures
            r@ == self.name_spec(),
    {
        self.name.as_str()
    }

    /// Returns the declared type of the column.
    pub fn type_(&self) -> (r: &Type)
        ensures
            *r == self.type_spec(),
    {
        &self.type_
    }
}

impl AsName for Column {
    open spec fn name_view(&self) -> Seq<char> {
        self.name_spec()
    }

    fn as_name(&self) -> (r: &str) {
        self.name()
    }
}

/// A column of a simple (text protocol) query: a name only.
#[derive(Clone, Debug)]
pub struct SimpleColumn {
    name: String,
}

impl SimpleColumn {
    pub closed spec fn name_spec(&self) -> Seq<char> {
        self.name@
    }

    pub fn new(name: String) -> (r: SimpleColumn)
        ensures
            r.name_spec() == name@,
    {
        SimpleColumn { name }
    }

    /// Returns the name of the column.
    pub fn name(&self) -> (r: &str)
        ensures
            r@ == self.name_spec(),
    {
        self.name.as_str()
    }
}

impl AsName for SimpleColumn {
    open spec fn name_view(&self) -> Seq<char> {
        self.name_spec()
    }

    fn as_name(&self) -> (r: &str) {
        self.name()
    }
}

impl AsName for String {
    open spec fn name_view(&self) -> Seq<char> {
        self@
    }

    fn as_name(&self) -> (r: &str) {
        self.as_str()
    }
}

/// Relies on `Arc::clone`: the new handle points to the same value.
#[verifier::external_body]
fn share<T>(a: &Arc<T>) -> (r: Arc<T>)
    ensures
        r == *a,
{
    Arc::clone(a)
}

/// A prepared statement: its columns and the result encoding it was prepared for.
///
/// Copies share the column list.
#[derive(Debug)]
pub struct Statement {
    columns: Arc<Vec<Column>>,
    result_format: Format,
}

impl Statement {
    pub closed spec fn columns_spec(&self) -> Seq<Column> {
        self.columns@
    }

    pub closed spec fn format_spec(&self) -> Format {
        self.result_format
    }

    pub fn new(columns: Vec<Column>, result_format: Format) -> (r: Statement)
        ensures
            r.columns_spec() == columns@,
            r.format_spec() == result_format,
    {
        Statement { columns: Arc::new(columns), result_format }
    }

    /// Returns the columns of the statement's results.
    pub fn columns(&self) -> (r: &[Column])
        ensures
            r@ == self.columns_spec(),
    {
        self.columns.as_slice()
    }

    /// Returns the encoding that results of the statement come in.
    pub fn result_format(&self) -> (r: Format)
        ensures
            r == self.format_spec(),
    {
        self.result_format
    }

    /// Returns a handle to the same prepared statement.
    pub fn share(&self) -> (r: Statement)
        ensures
            r == *self,
    {
        Statement { columns: share(&self.columns), result_format: self.result_format }
    }
}

} // verus!
