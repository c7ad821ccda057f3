use bytes::BytesMut;
use pgrow::{Column, ColumnIndex, Error, Row, SimpleColumn, SimpleQueryRow, Statement};
use postgres_protocol::message::backend::{DataRowBody, Message};
use postgres_types::{Format, Type};
use std::sync::Arc;

fn data_row(count: u16, fields: &[Option<&[u8]>], extra: &[u8]) -> DataRowBody {
    let mut payload = Vec::new();
    payload.extend_from_slice(&count.to_be_bytes());
    for field in fields {
        match field {
            None => payload.extend_from_slice(&(-1i32).to_be_bytes()),
            Some(bytes) => {
                payload.extend_from_slice(&(bytes.len() as i32).to_be_bytes());
                payload.extend_from_slice(bytes);
            }
        }
    }
    payload.extend_from_slice(extra);
    let mut message = BytesMut::new();
    message.extend_from_slice(b"D");
    message.extend_from_slice(&((payload.len() + 4) as u32).to_be_bytes());
    message.extend_from_slice(&payload);
    match Message::parse(&mut message).unwrap() {
        Some(Message::DataRow(body)) => body,
        _ => panic!("not a data row"),
    }
}

fn rows_of(fields: &[Option<&[u8]>]) -> DataRowBody {
    data_row(fields.len() as u16, fields, b"")
}

fn statement(columns: &[(&str, Type)]) -> Statement {
    let columns = columns
        .iter()
        .map(|(name, ty)| Column::new(name.to_string(), ty.clone()))
        .collect();
    Statement::new(columns, Format::Binary)
}

fn id_and_name(binary: bool) -> Row {
    let st = statement(&[("id", Type::INT4), ("name", Type::TEXT)]);
    let seven = 7i32.to_be_bytes();
    Row::new(st, rows_of(&[Some(&seven), Some(b"ada")]), binary).unwrap()
}

#[test]
fn typed_values_by_position_and_name() {
    let row = id_and_name(true);
    assert_eq!(row.len(), 2);
    assert!(!row.is_empty());
    assert!(row.extract_allowed());
    let id: i32 = row.try_get(0usize).unwrap();
    assert_eq!(id, 7);
    let name: &str = row.try_get("NAME").unwrap();
    assert_eq!(name, "ada");
    let missing = row.try_get::<usize, i32>(2usize);
    assert!(matches!(missing, Err(Error::Column(ColumnIndex::Position(2)))));
}

#[test]
fn position_and_exact_name_agree() {
    let row = id_and_name(true);
    let by_position: &str = row.try_get(1usize).unwrap();
    let by_name: &str = row.try_get("name").unwrap();
    assert_eq!(by_position, by_name);
    let id_by_name: i32 = row.try_get("id").unwrap();
    let id_by_position: i32 = row.try_get(0usize).unwrap();
    assert_eq!(id_by_name, id_by_position);
}

#[test]
fn exact_name_wins_over_case_insensitive() {
    let st = statement(&[("Name", Type::TEXT), ("name", Type::TEXT)]);
    let row = Row::new(st, rows_of(&[Some(b"first"), Some(b"second")]), true).unwrap();
    let exact: &str = row.try_get("name").unwrap();
    assert_eq!(exact, "second");
    let exact_first: &str = row.try_get("Name").unwrap();
    assert_eq!(exact_first, "first");
    let folded: &str = row.try_get("NAME").unwrap();
    assert_eq!(folded, "first");
    let unknown = row.try_get::<&str, &str>("nom");
    assert!(matches!(unknown, Err(Error::Column(ColumnIndex::Name(ref n))) if n == "nom"));
}

#[test]
fn null_is_no_value_or_a_decode_error() {
    let st = statement(&[("n", Type::INT4)]);
    let row = Row::new(st, rows_of(&[None]), true).unwrap();
    let nullable: Option<i32> = row.try_get(0usize).unwrap();
    assert_eq!(nullable, None);
    let strict = row.try_get::<usize, i32>(0usize);
    assert!(matches!(strict, Err(Error::FromSql { column: 0, .. })));
}

#[test]
fn out_of_range_position_is_a_column_error() {
    let st = statement(&[("a", Type::INT4), ("b", Type::INT4), ("c", Type::INT4)]);
    let one = 1i32.to_be_bytes();
    let row = Row::new(st, rows_of(&[Some(&one), Some(&one), Some(&one)]), true).unwrap();
    let r = row.try_get::<usize, i32>(5usize);
    assert!(matches!(r, Err(Error::Column(ColumnIndex::Position(5)))));
}

#[test]
fn text_encoded_row_fails_with_format_first() {
    let row = id_and_name(false);
    assert!(!row.extract_allowed());
    assert!(matches!(row.try_get::<usize, i32>(0usize), Err(Error::Format)));
    assert!(matches!(row.try_get::<usize, i32>(9usize), Err(Error::Format)));
    assert!(matches!(row.try_get::<&str, i32>("missing"), Err(Error::Format)));
}

#[test]
fn wrong_type_names_the_column_and_its_type() {
    let row = id_and_name(true);
    match row.try_get::<usize, &str>(0usize) {
        Err(Error::WrongType { column, declared }) => {
            assert_eq!(column, 0);
            assert_eq!(declared, Type::INT4);
        }
        _ => panic!("expected a type mismatch"),
    }
}

#[test]
fn bad_value_bytes_are_a_decode_error() {
    let st = statement(&[("n", Type::INT4)]);
    let row = Row::new(st, rows_of(&[Some(b"abc")]), true).unwrap();
    assert!(matches!(row.try_get::<usize, i32>(0usize), Err(Error::FromSql { column: 0, .. })));
}

#[test]
fn malformed_rows_are_parse_errors() {
    let st = || statement(&[("a", Type::INT4)]);
    // A length that runs past the end.
    let truncated = data_row(1, &[], &[0, 0, 0, 9, 1, 2]);
    assert!(matches!(Row::new(st(), truncated, true), Err(Error::Parse)));
    // Bytes left after the announced fields.
    let trailing = data_row(1, &[Some(b"abcd")], &[0]);
    assert!(matches!(Row::new(st(), trailing, true), Err(Error::Parse)));
    // A length prefix cut short.
    let short = data_row(1, &[], &[0, 0]);
    assert!(matches!(Row::new(st(), short, true), Err(Error::Parse)));
    // More fields than columns.
    let extra = rows_of(&[Some(b"abcd"), None]);
    assert!(matches!(Row::new(st(), extra, true), Err(Error::Parse)));
}

#[test]
fn row_keeps_columns_and_body() {
    let row = id_and_name(true);
    let names: Vec<&str> = row.columns().iter().map(|c| c.name()).collect();
    assert_eq!(names, vec!["id", "name"]);
    assert_eq!(row.columns()[0].type_(), &Type::INT4);
    assert_eq!(row.data_row().buffer().len(), 4 + 4 + 4 + 3);
    assert_eq!(row.col_buffer(1), Some(&b"ada"[..]));
    let body = row.into_data_row();
    assert_eq!(&body.buffer()[8..], &[0, 0, 0, 3, b'a', b'd', b'a'][..]);
}

#[test]
fn empty_row() {
    let row = Row::new(statement(&[]), rows_of(&[]), true).unwrap();
    assert!(row.is_empty());
    assert_eq!(row.len(), 0);
    assert!(matches!(row.try_get::<usize, i32>(0usize), Err(Error::Column(_))));
}

fn simple_row(fields: &[Option<&[u8]>]) -> SimpleQueryRow {
    let columns = Arc::new(vec![
        SimpleColumn::new("id".to_string()),
        SimpleColumn::new("Name".to_string()),
    ]);
    SimpleQueryRow::new(columns, rows_of(fields)).unwrap()
}

#[test]
fn simple_row_reads_text() {
    let row = simple_row(&[Some(b"7"), Some(b"ada")]);
    assert_eq!(row.len(), 2);
    assert!(!row.is_empty());
    assert_eq!(row.columns()[1].name(), "Name");
    assert_eq!(row.try_get(0usize).unwrap(), Some("7"));
    assert_eq!(row.try_get("name").unwrap(), Some("ada"));
    assert_eq!(row.get("id"), Some("7"));
    assert!(matches!(row.try_get(2usize), Err(Error::Column(ColumnIndex::Position(2)))));
}

#[test]
fn simple_row_null_and_invalid_text() {
    let row = simple_row(&[None, Some(&[0xff, 0xfe])]);
    assert_eq!(row.try_get(0usize).unwrap(), None);
    assert_eq!(row.get(0usize), None);
    assert!(matches!(row.try_get("Name"), Err(Error::FromSql { column: 1, .. })));
}

#[test]
fn simple_row_parse_errors() {
    let columns = Arc::new(vec![SimpleColumn::new("a".to_string())]);
    let truncated = data_row(1, &[], &[0, 0, 0, 5, 1]);
    assert!(matches!(SimpleQueryRow::new(columns.clone(), truncated), Err(Error::Parse)));
    let too_few = rows_of(&[]);
    assert!(matches!(SimpleQueryRow::new(columns, too_few), Err(Error::Parse)));
}

#[test]
fn case_folding_is_ascii_only() {
    let st = statement(&[("café", Type::TEXT)]);
    let row = Row::new(st, rows_of(&[Some(b"x")]), true).unwrap();
    let folded: &str = row.try_get("CAFé").unwrap();
    assert_eq!(folded, "x");
    assert!(matches!(row.try_get::<&str, &str>("CAFÉ"), Err(Error::Column(_))));
}

#[test]
fn simple_row_position_and_name_agree() {
    let row = simple_row(&[Some(b"1"), Some(b"two")]);
    assert_eq!(row.try_get(1usize).unwrap(), row.try_get("Name").unwrap());
    assert_eq!(row.try_get(0usize).unwrap(), row.try_get("id").unwrap());
}
