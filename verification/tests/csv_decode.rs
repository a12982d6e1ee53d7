use std::str::FromStr;

use postgres_source::csv_parser::PostgresCSVSourceParser;
use postgres_source::errors::{ConnectorXError, PostgresSourceError};
use postgres_source::typesystem::PostgresTypeSystem;

fn schema_of(n: usize) -> Vec<PostgresTypeSystem> {
    vec![PostgresTypeSystem::Text(true); n]
}

fn one_row(fields: &[&str]) -> Vec<Vec<String>> {
    vec![fields.iter().map(|s| s.to_string()).collect()]
}

fn parser_with(fields: &[&str]) -> PostgresCSVSourceParser {
    let mut p = PostgresCSVSourceParser::new(&schema_of(fields.len()));
    p.fetch_next(one_row(fields));
    p
}

fn is_cannot_produce(e: &PostgresSourceError) -> bool {
    matches!(e, PostgresSourceError::ConnectorX(ConnectorXError::CannotProduce { .. }))
}

#[test]
fn csv_two_rows_of_three_columns() {
    // Schema (id int4 not null, name text, ts timestamptz), two rows.
    let mut p = PostgresCSVSourceParser::new(&schema_of(3));
    let batch = vec![
        vec!["1".to_string(), "a".to_string(), "1970-01-01 00:00:01+00".to_string()],
        vec!["2".to_string(), "".to_string(), "2020-02-29 12:00:00+00".to_string()],
    ];
    let (n, is_last) = p.fetch_next(batch);
    assert_eq!(n, 2);
    assert!(is_last);
    assert_eq!(p.produce_i32().unwrap(), 1);
    assert_eq!(p.produce_opt_str().unwrap(), Some("a".to_string()));
    let ts1 = p.produce_timestamp_tz().unwrap();
    let want1 = chrono::DateTime::<chrono::Utc>::from_str("1970-01-01 00:00:01+00:00").unwrap();
    assert_eq!(ts1, want1.naive_utc());
    assert_eq!(p.produce_i32().unwrap(), 2);
    assert_eq!(p.produce_opt_str().unwrap(), None);
    let ts2 = p.produce_timestamp_tz().unwrap();
    let want2 = chrono::DateTime::<chrono::Utc>::from_str("2020-02-29 12:00:00+00:00").unwrap();
    assert_eq!(ts2, want2.naive_utc());
}

#[test]
fn csv_bool_fields() {
    let mut p = parser_with(&["t", "f", "x"]);
    assert_eq!(p.produce_bool().unwrap(), true);
    assert_eq!(p.produce_bool().unwrap(), false);
    assert!(is_cannot_produce(&p.produce_bool().unwrap_err()));
    let mut q = parser_with(&["", "t"]);
    assert_eq!(q.produce_opt_bool().unwrap(), None);
    assert_eq!(q.produce_opt_bool().unwrap(), Some(true));
}

#[test]
fn csv_integer_fields() {
    let mut p = parser_with(&["-9223372036854775808", "9223372036854775807", "007", "-0"]);
    assert_eq!(p.produce_i64().unwrap(), i64::MIN);
    assert_eq!(p.produce_i64().unwrap(), i64::MAX);
    assert_eq!(p.produce_i64().unwrap(), 7);
    assert_eq!(p.produce_i64().unwrap(), 0);
    let mut q = parser_with(&["9223372036854775808", "32768", "-129", "1.5"]);
    assert!(is_cannot_produce(&q.produce_i64().unwrap_err()));
    assert!(is_cannot_produce(&q.produce_i16().unwrap_err()));
    assert!(is_cannot_produce(&q.produce_i8().unwrap_err()));
    assert!(is_cannot_produce(&q.produce_i32().unwrap_err()));
    let mut r = parser_with(&["-32768", "127", ""]);
    assert_eq!(r.produce_i16().unwrap(), i16::MIN);
    assert_eq!(r.produce_i8().unwrap(), 127);
    assert_eq!(r.produce_opt_i32().unwrap(), None);
    // parse() semantics: one leading plus sign is accepted, a bare sign is not.
    let mut s = parser_with(&["+5", "+", "+-5"]);
    assert_eq!(s.produce_i64().unwrap(), 5);
    assert!(is_cannot_produce(&s.produce_i64().unwrap_err()));
    assert!(is_cannot_produce(&s.produce_i64().unwrap_err()));
}

#[test]
fn csv_null_reads_none_for_every_optional_producer() {
    let mut p = parser_with(&["", "", "", "", "", "", "", "", ""]);
    assert_eq!(p.produce_opt_i64().unwrap(), None);
    assert_eq!(p.produce_opt_bool().unwrap(), None);
    assert_eq!(p.produce_opt_bytea().unwrap(), None);
    assert!(p.produce_opt_decimal().unwrap().is_none());
    assert!(p.produce_opt_uuid().unwrap().is_none());
    assert!(p.produce_opt_json().unwrap().is_none());
    assert!(p.produce_opt_date().unwrap().is_none());
    assert!(p.produce_opt_timestamp_tz().unwrap().is_none());
    assert_eq!(p.produce_opt_i64_vec().unwrap(), None);
}

#[test]
fn csv_null_fails_the_non_optional_int_producer() {
    let mut p = parser_with(&["", ""]);
    assert!(is_cannot_produce(&p.produce_i64().unwrap_err()));
    assert!(is_cannot_produce(&p.produce_bool().unwrap_err()));
}

#[test]
fn csv_int_array_field() {
    let mut p = parser_with(&["{1,2,3}", "{}", "{4,x}", "x"]);
    assert_eq!(p.produce_i32_vec().unwrap(), vec![1, 2, 3]);
    assert_eq!(p.produce_i32_vec().unwrap(), Vec::<i32>::new());
    assert!(is_cannot_produce(&p.produce_i32_vec().unwrap_err()));
    assert!(is_cannot_produce(&p.produce_i32_vec().unwrap_err()));
    let mut q = parser_with(&["{32768,1}", "{-1,-2}", ""]);
    assert!(is_cannot_produce(&q.produce_i16_vec().unwrap_err()));
    assert_eq!(q.produce_i16_vec().unwrap(), vec![-1, -2]);
    assert_eq!(q.produce_opt_i16_vec().unwrap(), None);
    let mut r = parser_with(&["{9223372036854775807}", "{+1}"]);
    assert_eq!(r.produce_i64_vec().unwrap(), vec![i64::MAX]);
    assert_eq!(r.produce_i64_vec().unwrap(), vec![1]);
}

#[test]
fn csv_bytea_field_is_hex_with_backslash_x_prefix() {
    let mut p = parser_with(&["\\xdeadbeef", "\\xDEADBEEF", "\\xzz", "x"]);
    assert_eq!(p.produce_bytea().unwrap(), vec![0xde, 0xad, 0xbe, 0xef]);
    assert_eq!(p.produce_bytea().unwrap(), vec![0xde, 0xad, 0xbe, 0xef]);
    assert!(matches!(p.produce_bytea().unwrap_err(), PostgresSourceError::Hex(_)));
    assert!(is_cannot_produce(&p.produce_bytea().unwrap_err()));
    let mut q = parser_with(&["\\x", ""]);
    assert_eq!(q.produce_bytea().unwrap(), Vec::<u8>::new());
    assert!(is_cannot_produce(&q.produce_bytea().unwrap_err()));
}

#[test]
fn csv_decimal_field() {
    let mut p = parser_with(&["123.45", "-0.001", "x"]);
    assert_eq!(p.produce_decimal().unwrap(), rust_decimal::Decimal::from_str("123.45").unwrap());
    assert_eq!(p.produce_decimal().unwrap(), rust_decimal::Decimal::from_str("-0.001").unwrap());
    assert!(is_cannot_produce(&p.produce_decimal().unwrap_err()));
    let mut q = parser_with(&["{1.5,2.5}", "{1.5,x}"]);
    let v = q.produce_decimal_vec().unwrap();
    assert_eq!(v, vec![
        rust_decimal::Decimal::from_str("1.5").unwrap(),
        rust_decimal::Decimal::from_str("2.5").unwrap(),
    ]);
    assert!(is_cannot_produce(&q.produce_decimal_vec().unwrap_err()));
}

#[test]
fn csv_uuid_field() {
    let mut p = parser_with(&["a0eebc99-9c0b-4ef8-bb6d-6bb9bd380a11", "not-a-uuid"]);
    assert_eq!(
        p.produce_uuid().unwrap(),
        uuid::Uuid::parse_str("a0eebc99-9c0b-4ef8-bb6d-6bb9bd380a11").unwrap()
    );
    assert!(is_cannot_produce(&p.produce_uuid().unwrap_err()));
}

#[test]
fn csv_json_field() {
    let mut p = parser_with(&["{\"a\": 1}", "nope"]);
    let v = p.produce_json().unwrap();
    let want: serde_json::Value = serde_json::from_str("{\"a\": 1}").unwrap();
    assert_eq!(v, want);
    assert!(is_cannot_produce(&p.produce_json().unwrap_err()));
}

#[test]
fn csv_temporal_fields() {
    let mut p = parser_with(&["2020-02-29", "12:34:56", "2020-02-29 12:34:56", "x"]);
    assert_eq!(p.produce_date().unwrap(), chrono::NaiveDate::from_ymd_opt(2020, 2, 29).unwrap());
    assert_eq!(
        p.produce_time().unwrap(),
        chrono::NaiveTime::from_hms_opt(12, 34, 56).unwrap()
    );
    assert_eq!(
        p.produce_timestamp().unwrap(),
        chrono::NaiveDate::from_ymd_opt(2020, 2, 29).unwrap().and_hms_opt(12, 34, 56).unwrap()
    );
    assert!(is_cannot_produce(&p.produce_date().unwrap_err()));
    let mut q = parser_with(&["garbage"]);
    assert!(is_cannot_produce(&q.produce_timestamp_tz().unwrap_err()));
}

#[test]
fn csv_hstore_is_unimplemented() {
    let mut p = parser_with(&["a=>1", "a=>1"]);
    assert!(matches!(
        p.produce_hstore().unwrap_err(),
        PostgresSourceError::Unimplemented(_)
    ));
    assert!(matches!(
        p.produce_opt_hstore().unwrap_err(),
        PostgresSourceError::Unimplemented(_)
    ));
}

#[test]
fn csv_str_passthrough_returns_the_field_text() {
    let mut p = parser_with(&["plain text, with é", ""]);
    assert_eq!(p.produce_str().unwrap(), "plain text, with é");
    assert_eq!(p.produce_str().unwrap(), "");
}

#[test]
fn csv_i8_array_field() {
    let mut p = parser_with(&["{1,-128,127}", "{128}"]);
    assert_eq!(p.produce_i8_vec().unwrap(), vec![1, -128, 127]);
    assert!(is_cannot_produce(&p.produce_i8_vec().unwrap_err()));
}
