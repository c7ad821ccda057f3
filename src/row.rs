//! Rows of query results, and typed access to their fields.

use std::marker::PhantomData;
use std::ops::Range;
use std::sync::Arc;
use vstd::prelude::*;
use vstd::slice::slice_subrange;
use fallible_iterator::FallibleIterator;
use postgres_protocol::message::backend::DataRowBody;
use postgres_types::{FromSql, Type};
use crate::error::Error;
use crate::index::{column_names, resolve, IndexView, RowIndex};
use crate::index::lemma_name_and_position_agree;
use crate::types::{Column, SimpleColumn, Statement};

verus! {

/// The body of a data-row message; opaque here.
#[verifier::external_type_specification]
#[verifier::external_body]
pub struct ExDataRowBody(DataRowBody);

/// The bytes that a data-row body holds: its fields, each a length and a value.
pub uninterp spec fn data_row_bytes(body: DataRowBody) -> Seq<u8>;

/// The number of fields that a data-row body announces.
pub uninterp spec fn data_row_field_count(body: DataRowBody) -> nat;

/// The big-endian signed 32-bit integer at `p`.
pub open spec fn be_i32(b: Seq<u8>, p: int) -> int {
    let u = b[p] as int * 0x100_0000 + b[p + 1] as int * 0x1_0000 + b[p + 2] as int * 0x100
        + b[p + 3] as int;
    if u >= 0x8000_0000 {
        u - 0x1_0000_0000
    } else {
        u
    }
}

/// The fields of `remaining` length-prefixed values starting at `pos`: each is
/// the range of its bytes, or none where the length is negative (SQL NULL).
/// There is no result where a value runs past the end, or bytes are left over.
pub open spec fn parse_fields(b: Seq<u8>, pos: int, remaining: nat) -> Option<
    Seq<Option<(int, int)>>,
>
    decreases remaining,
{
    if remaining == 0 {
        if pos == b.len() {
            Some(Seq::empty())
        } else {
            None
        }
    } else if pos + 4 > b.len() {
        None
    } else {
        let len = be_i32(b, pos);
        let next = if len < 0 {
            pos + 4
        } else {
            pos + 4 + len
        };
        if next > b.len() {
            None
        } else {
            match parse_fields(b, next, (remaining - 1) as nat) {
                Some(rest) => Some(
                    seq![if len < 0 { None } else { Some((pos + 4, next)) }].add(rest),
                ),
                None => None,
            }
        }
    }
}

/// The fields of a whole data-row body.
pub open spec fn body_fields(body: DataRowBody) -> Option<Seq<Option<(int, int)>>> {
    parse_fields(data_row_bytes(body), 0, data_row_field_count(body))
}

/// The values that the ranges of `f` select from `b`.
pub open spec fn field_values(b: Seq<u8>, f: Seq<Option<(int, int)>>) -> Seq<Option<Seq<u8>>> {
    f.map_values(
        |o: Option<(int, int)>|
            match o {
                Some((s, e)) => Some(b.subrange(s, e)),
                None => None,
            },
    )
}

/// Ranges as pairs of integers.
pub open spec fn range_views(v: Seq<Option<Range<usize>>>) -> Seq<Option<(int, int)>> {
    v.map_values(
        |o: Option<Range<usize>>|
            match o {
                Some(r) => Some((r.start as int, r.end as int)),
                None => None,
            },
    )
}

/// Every parsed field lies within the bytes, after `pos`, and there are as
/// many fields as announced.
proof fn lemma_parse_fields_bounds(b: Seq<u8>, pos: int, remaining: nat)
    requires
        0 <= pos,
        parse_fields(b, pos, remaining) is Some,
    ensures
        parse_fields(b, pos, remaining)->Some_0.len() == remaining,
        forall|i: int|
            0 <= i < remaining ==> (#[trigger] parse_fields(b, pos, remaining)->Some_0[i] matches Some(
                (s, e),
            ) ==> pos <= s <= e <= b.len()),
    decreases remaining,
{
    if remaining > 0 {
        let len = be_i32(b, pos);
        let next = if len < 0 {
            pos + 4
        } else {
            pos + 4 + len
        };
        lemma_parse_fields_bounds(b, next, (remaining - 1) as nat);
        let f = parse_fields(b, pos, remaining)->Some_0;
        let rest = parse_fields(b, next, (remaining - 1) as nat)->Some_0;
        assert forall|i: int| 0 < i < remaining implies f[i] == rest[i - 1] by {}
    }
}

/// Relies on `DataRowBody::buffer`: the body's bytes.
#[verifier::external_body]
fn body_bytes(body: &DataRowBody) -> (r: &[u8])
    ensures
        r@ == data_row_bytes(*body),
{
    body.buffer()
}

/// Relies on `DataRowBody::ranges`, collected by `FallibleIterator::collect`:
/// the range of each field, or none for NULL; an error where the fields are
/// malformed.
#[verifier::external_body]
fn body_ranges(body: &DataRowBody) -> (r: Option<Vec<Option<Range<usize>>>>)
    ensures
        match parse_fields(data_row_bytes(*body), 0, data_row_field_count(*body)) {
            Some(f) => r matches Some(v) && range_views(v@) == f,
            None => r is None,
        },
{
    body.ranges().collect().ok()
}

/// Proof that `FromSql::accepts` of `T` returned true for a type; only
/// [`type_accepts`] builds one.
struct Accepted<'t, T> {
    ty: &'t Type,
    requested: PhantomData<T>,
}

/// Relies on `FromSql::accepts` of the requested type; the type comes back
/// inside an [`Accepted`] exactly when it is accepted.
#[verifier::external_body]
fn type_accepts<'a, 't, T: FromSql<'a>>(ty: &'t Type) -> (r: Option<Accepted<'t, T>>) {
    T::accepts(ty).then_some(Accepted { ty, requested: PhantomData })
}

/// Relies on `FromSql::from_sql_nullable` of the requested type, called only
/// on a type that the same `T` accepted; its error is kept as text.
#[verifier::external_body]
fn decode_nullable<'a, 't, T: FromSql<'a>>(accepted: Accepted<'t, T>, raw: Option<&'a [u8]>) -> (r: Result<T, String>) {
    T::from_sql_nullable(accepted.ty, raw).map_err(|e| e.to_string())
}

/// A row of data returned from the database by a query.
#[derive(Debug)]
pub struct Row {
    statement: Statement,
    body: DataRowBody,
    ranges: Vec<Option<Range<usize>>>,
    extract_allowed: bool,
}

impl Row {
    #[verifier::type_invariant]
    spec fn inv(self) -> bool {
        &&& self.ranges@.len() == self.statement.columns_spec().len()
        &&& forall|i: int|
            0 <= i < self.ranges@.len() ==> (#[trigger] self.ranges@[i] matches Some(r) ==> r.start
                <= r.end <= data_row_bytes(self.body).len())
    }

    /// The columns of the row.
    pub closed spec fn columns_spec(&self) -> Seq<Column> {
        self.statement.columns_spec()
    }

    /// The value of each field: its bytes, or none for NULL.
    pub closed spec fn fields(&self) -> Seq<Option<Seq<u8>>> {
        field_values(data_row_bytes(self.body), range_views(self.ranges@))
    }

    /// Whether the values are in the binary encoding.
    pub closed spec fn binary(&self) -> bool {
        self.extract_allowed
    }

    /// The number of located fields.
    pub closed spec fn range_count(&self) -> nat {
        self.ranges@.len()
    }

    /// The data-row body that the row was built from.
    pub closed spec fn body_spec(&self) -> DataRowBody {
        self.body
    }

    /// The slot that an index designates in this row.
    pub open spec fn slot_of(&self, index: IndexView) -> Option<int> {
        resolve(index, column_names(self.columns_spec()))
    }

    /// The slot that `idx` designates in this row.
    pub open spec fn slot<I: RowIndex + ?Sized>(&self, idx: &I) -> Option<int> {
        self.slot_of(idx.index_view())
    }

    /// Reading a column by its exact name reads the same slot as reading it by
    /// its position, when no earlier column carries exactly that name.
    pub proof fn lemma_name_and_position_agree(&self, i: int)
        requires
            0 <= i < self.columns_spec().len(),
            forall|j: int|
                0 <= j < i ==> self.columns_spec()[j].name_spec()
                    != self.columns_spec()[i].name_spec(),
        ensures
            self.slot_of(IndexView::Position(i as nat)) == Some(i),
            self.slot_of(IndexView::Name(self.columns_spec()[i].name_spec())) == Some(i),
    {
        lemma_name_and_position_agree(column_names(self.columns_spec()), i);
    }

    /// Builds a row of `statement`'s columns from a data-row body, locating
    /// every field. Fails with [`Error::Parse`] where the fields are malformed
    /// or their number differs from the number of columns.
    pub fn new(statement: Statement, body: DataRowBody, extract_allowed: bool) -> (r: Result<
        Row,
        Error,
    >)
        ensures
            r is Ok <==> (body_fields(body) matches Some(f) && f.len()
                == statement.columns_spec().len()),
            r is Err ==> r == Err::<Row, Error>(Error::Parse),
            r matches Ok(row) ==> {
                &&& row.columns_spec() == statement.columns_spec()
                &&& row.range_count() == row.columns_spec().len()
                &&& row.fields() == field_values(data_row_bytes(body), body_fields(body)->Some_0)
                &&& row.binary() == extract_allowed
                &&& row.body_spec() == body
            },
    {
        let ranges = match body_ranges(&body) {
            Some(ranges) => ranges,
            None => return Err(Error::Parse),
        };
        proof {
            lemma_parse_fields_bounds(data_row_bytes(body), 0, data_row_field_count(body));
            assert(range_views(ranges@).len() == ranges@.len());
        }
        if ranges.len() != statement.columns().len() {
            return Err(Error::Parse);
        }
        proof {
            let f = body_fields(body)->Some_0;
            assert forall|i: int| 0 <= i < ranges@.len() implies (#[trigger] ranges@[i] matches Some(
                r,
            ) ==> r.start <= r.end <= data_row_bytes(body).len()) by {
                assert(range_views(ranges@)[i] == f[i]);
            }
        }
        Ok(Row { statement, body, ranges, extract_allowed })
    }

    /// Returns the underlying data-row body.
    pub fn data_row(&self) -> (r: &DataRowBody)
        ensures
            *r == self.body_spec(),
    {
        &self.body
    }

    /// Converts the row into the underlying data-row body.
    pub fn into_data_row(self) -> (r: DataRowBody)
        ensures
            r == self.body_spec(),
    {
        self.body
    }

    /// Returns information about the columns of data in the row.
    pub fn columns(&self) -> (r: &[Column])
        ensures
            r@ == self.columns_spec(),
    {
        self.statement.columns()
    }

    /// Determines if the row contains no values.
    pub fn is_empty(&self) -> (r: bool)
        ensures
            r == (self.columns_spec().len() == 0),
    {
        self.len() == 0
    }

    /// Returns the number of values in the row.
    pub fn len(&self) -> (r: usize)
        ensures
            r == self.columns_spec().len(),
            r == self.range_count(),
    {
        proof {
            use_type_invariant(self);
        }
        self.columns().len()
    }

    /// Whether values can be read with `try_get`: only when they are in the
    /// binary encoding.
    pub fn extract_allowed(&self) -> (r: bool)
        ensures
            r == self.binary(),
    {
        self.extract_allowed
    }

    /// The bytes of the field in slot `idx`, or none where it is NULL.
    pub fn col_buffer(&self, idx: usize) -> (r: Option<&[u8]>)
        requires
            idx < self.columns_spec().len(),
        ensures
            match r {
                Some(b) => self.fields()[idx as int] == Some(b@),
                None => self.fields()[idx as int] is None,
            },
    {
        proof {
            use_type_invariant(self);
        }
        match &self.ranges[idx] {
            Some(range) => Some(slice_subrange(body_bytes(&self.body), range.start, range.end)),
            None => None,
        }
    }

    /// Decodes the value designated by `idx` as a `T`.
    ///
    /// The checks come in this order: the encoding must be binary
    /// ([`Error::Format`]), the index must designate a column
    /// ([`Error::Column`]), `T` must accept the column's type
    /// ([`Error::WrongType`]), and the decoder must accept the value
    /// ([`Error::FromSql`]).
    pub fn try_get<'a, I: RowIndex, T: FromSql<'a>>(&'a self, idx: I) -> (r: Result<
        T,
        Error,
    >)
        ensures
            !self.binary() ==> r == Err::<T, Error>(Error::Format),
            self.binary() && self.slot(&idx) is None ==> (r matches Err(Error::Column(c)) && c.view()
                == idx.index_view()),
            self.binary() && self.slot(&idx) is Some ==> match r {
                Ok(_) => true,
                Err(Error::WrongType { column, declared }) => column == self.slot(&idx)->Some_0
                    && declared == self.columns_spec()[column as int].type_spec(),
                Err(Error::FromSql { column, .. }) => column == self.slot(&idx)->Some_0,
                Err(_) => false,
            },
    {
        if !self.extract_allowed {
            return Err(Error::Format);
        }
        let i = match idx.__idx(self.columns()) {
            Some(i) => i,
            None => return Err(Error::Column(idx.to_column_index())),
        };
        let ty = self.columns()[i].type_();
        let accepted = match type_accepts::<T>(ty) {
            Some(accepted) => accepted,
            None => return Err(Error::WrongType { column: i, declared: ty.clone() }),
        };
        match decode_nullable(accepted, self.col_buffer(i)) {
            Ok(v) => Ok(v),
            Err(cause) => Err(Error::FromSql { column: i, cause }),
        }
    }
}

/// The text that UTF-8 bytes decode to; none where they are not valid UTF-8.
pub uninterp spec fn utf8_text(raw: Seq<u8>) -> Option<Seq<char>>;

/// Relies on `FromSql::from_sql` of `&str` for the `TEXT` type, which decodes
/// UTF-8 (`postgres_protocol::types::text_from_sql`); its error is kept as text.
#[verifier::external_body]
fn decode_text(raw: &[u8]) -> (r: Result<&str, String>)
    ensures
        match utf8_text(raw@) {
            Some(t) => r matches Ok(s) && s@ == t,
            None => r is Err,
        },
{
    <&str as FromSql>::from_sql(&Type::TEXT, raw).map_err(|e| e.to_string())
}

/// What reading a text field gives: no value for NULL, else its text; none
/// where the bytes are not valid UTF-8.
pub open spec fn text_outcome(field: Option<Seq<u8>>) -> Option<Option<Seq<char>>> {
    match field {
        None => Some(None),
        Some(b) => match utf8_text(b) {
            Some(t) => Some(Some(t)),
            None => None,
        },
    }
}

/// A row of data returned from the database by a simple query: every value
/// is text.
#[derive(Debug)]
pub struct SimpleQueryRow {
    columns: Arc<Vec<SimpleColumn>>,
    body: DataRowBody,
    ranges: Vec<Option<Range<usize>>>,
}

impl SimpleQueryRow {
    #[verifier::type_invariant]
    spec fn inv(self) -> bool {
        &&& self.ranges@.len() == self.columns@.len()
        &&& forall|i: int|
            0 <= i < self.ranges@.len() ==> (#[trigger] self.ranges@[i] matches Some(r) ==> r.start
                <= r.end <= data_row_bytes(self.body).len())
    }

    /// The columns of the row.
    pub closed spec fn columns_spec(&self) -> Seq<SimpleColumn> {
        self.columns@
    }

    /// The value of each field: its bytes, or none for NULL.
    pub closed spec fn fields(&self) -> Seq<Option<Seq<u8>>> {
        field_values(data_row_bytes(self.body), range_views(self.ranges@))
    }

    /// The number of located fields.
    pub closed spec fn range_count(&self) -> nat {
        self.ranges@.len()
    }

    /// The slot that an index designates in this row.
    pub open spec fn slot_of(&self, index: IndexView) -> Option<int> {
        resolve(index, column_names(self.columns_spec()))
    }

    /// The slot that `idx` designates in this row.
    pub open spec fn slot<I: RowIndex + ?Sized>(&self, idx: &I) -> Option<int> {
        self.slot_of(idx.index_view())
    }

    /// What reading slot `i` gives, as [`text_outcome`] says.
    pub open spec fn outcome_at(&self, i: int) -> Option<Option<Seq<char>>> {
        text_outcome(self.fields()[i])
    }

    /// Reading a column by its exact name gives the same outcome as reading it
    /// by its position, when no earlier column carries exactly that name.
    pub proof fn lemma_name_and_position_agree(&self, i: int)
        requires
            0 <= i < self.columns_spec().len(),
            forall|j: int|
                0 <= j < i ==> self.columns_spec()[j].name_spec()
                    != self.columns_spec()[i].name_spec(),
        ensures
            self.slot_of(IndexView::Position(i as nat)) == Some(i),
            self.slot_of(IndexView::Name(self.columns_spec()[i].name_spec())) == Some(i),
    {
        lemma_name_and_position_agree(column_names(self.columns_spec()), i);
    }

    /// Builds a row of the given columns from a data-row body, locating every
    /// field. Fails with [`Error::Parse`] where the fields are malformed or
    /// their number differs from the number of columns.
    pub fn new(columns: Arc<Vec<SimpleColumn>>, body: DataRowBody) -> (r: Result<
        SimpleQueryRow,
        Error,
    >)
        ensures
            r is Ok <==> (body_fields(body) matches Some(f) && f.len() == columns@.len()),
            r is Err ==> r == Err::<SimpleQueryRow, Error>(Error::Parse),
            r matches Ok(row) ==> {
                &&& row.columns_spec() == columns@
                &&& row.range_count() == row.columns_spec().len()
                &&& row.fields() == field_values(data_row_bytes(body), body_fields(body)->Some_0)
            },
    {
        let ranges = match body_ranges(&body) {
            Some(ranges) => ranges,
            None => return Err(Error::Parse),
        };
        proof {
            lemma_parse_fields_bounds(data_row_bytes(body), 0, data_row_field_count(body));
            assert(range_views(ranges@).len() == ranges@.len());
        }
        if ranges.len() != columns.len() {
            return Err(Error::Parse);
        }
        proof {
            let f = body_fields(body)->Some_0;
            assert forall|i: int| 0 <= i < ranges@.len() implies (#[trigger] ranges@[i] matches Some(
                r,
            ) ==> r.start <= r.end <= data_row_bytes(body).len()) by {
                assert(range_views(ranges@)[i] == f[i]);
            }
        }
        Ok(SimpleQueryRow { columns, body, ranges })
    }

    /// Returns information about the columns of data in the row.
    pub fn columns(&self) -> (r: &[SimpleColumn])
        ensures
            r@ == self.columns_spec(),
    {
        self.columns.as_slice()
    }

    /// Determines if the row contains no values.
    pub fn is_empty(&self) -> (r: bool)
        ensures
            r == (self.columns_spec().len() == 0),
    {
        self.len() == 0
    }

    /// Returns the number of values in the row.
    pub fn len(&self) -> (r: usize)
        ensures
            r == self.columns_spec().len(),
            r == self.range_count(),
    {
        proof {
            use_type_invariant(self);
        }
        self.columns.len()
    }

    /// Returns the text of the value designated by `idx`, or none for NULL.
    ///
    /// Fails with [`Error::Column`] where the index designates no column, and
    /// with [`Error::FromSql`] where the value is not valid UTF-8.
    pub fn try_get<I: RowIndex>(&self, idx: I) -> (r: Result<Option<&str>, Error>)
        ensures
            self.slot(&idx) is None ==> (r matches Err(Error::Column(c)) && c.view()
                == idx.index_view()),
            self.slot(&idx) matches Some(i) ==> match self.outcome_at(i) {
                Some(None) => r matches Ok(None),
                Some(Some(t)) => r matches Ok(Some(s)) && s@ == t,
                None => r matches Err(Error::FromSql { column, .. }) && column == i,
            },
    {
        proof {
            use_type_invariant(self);
        }
        let i = match idx.__idx(self.columns()) {
            Some(i) => i,
            None => return Err(Error::Column(idx.to_column_index())),
        };
        let buf = match &self.ranges[i] {
            Some(range) => slice_subrange(body_bytes(&self.body), range.start, range.end),
            None => return Ok(None),
        };
        match decode_text(buf) {
            Ok(s) => Ok(Some(s)),
            Err(cause) => Err(Error::FromSql { column: i, cause }),
        }
    }

    /// Returns the text of the value designated by `idx`, or none for NULL;
    /// the index must designate a column whose value is NULL or valid UTF-8.
    pub fn get<I: RowIndex>(&self, idx: I) -> (r: Option<&str>)
        requires
            self.slot(&idx) matches Some(i) && self.outcome_at(i) is Some,
        ensures
            match self.outcome_at(self.slot(&idx)->Some_0) {
                Some(Some(t)) => r matches Some(s) && s@ == t,
                _ => r is None,
            },
    {
        match self.try_get(idx) {
            Ok(v) => v,
            Err(_) => vstd::pervasive::unreached(),
        }
    }
}

} // verus!
