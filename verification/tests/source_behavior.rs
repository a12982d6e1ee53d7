use postgres_source::data_order::DataOrder;
use postgres_source::errors::{ConnectorXError, PostgresSourceError};
use postgres_source::count::count_query;
use postgres_source::source::{
    interpret_count, BinaryProtocol, CSVProtocol, CountValue, CursorProtocol, PostgresSource,
    PostgresSourcePartition,
};
use postgres_source::sql::{copy_binary_query, copy_csv_query, CXQuery};
use postgres_source::typesystem::{PgCatalogType, PostgresTypePairs, PostgresTypeSystem};

fn naked(s: &str) -> CXQuery {
    CXQuery::Naked(s.to_string())
}

#[test]
fn data_order_row_major_only() {
    let mut src: PostgresSource<CSVProtocol> = PostgresSource::new(1);
    assert!(src.set_data_order(DataOrder::RowMajor).is_ok());
    let r = src.set_data_order(DataOrder::ColumnMajor);
    assert!(matches!(
        r,
        Err(PostgresSourceError::ConnectorX(ConnectorXError::UnsupportedDataOrder(
            DataOrder::ColumnMajor
        )))
    ));
}

#[test]
fn fetch_metadata_records_parallel_schemas() {
    let mut src: PostgresSource<BinaryProtocol> = PostgresSource::new(2);
    src.set_queries(vec![naked("SELECT * FROM t")]);
    let columns = vec![
        ("id".to_string(), PgCatalogType::Int4),
        ("name".to_string(), PgCatalogType::VarChar),
        ("ts".to_string(), PgCatalogType::TimestampTz),
    ];
    src.fetch_metadata(&columns);
    let names = src.names();
    let schema = src.schema();
    assert_eq!(names, vec!["id".to_string(), "name".to_string(), "ts".to_string()]);
    assert_eq!(schema.len(), 3);
    assert_eq!(src.pg_schema.len(), 3);
    assert!(matches!(schema[0], PostgresTypeSystem::Int4(true)));
    assert!(matches!(schema[1], PostgresTypeSystem::VarChar(true)));
    assert!(matches!(schema[2], PostgresTypeSystem::TimestampTz(true)));
    // varchar collapses to text for the binary read; the others stand.
    assert!(matches!(src.pg_schema[0], PgCatalogType::Int4));
    assert!(matches!(src.pg_schema[1], PgCatalogType::Text));
    assert!(matches!(src.pg_schema[2], PgCatalogType::TimestampTz));
}

#[test]
fn partition_one_per_query_in_order() {
    let mut src: PostgresSource<CursorProtocol> = PostgresSource::new(1);
    src.set_queries(vec![naked("SELECT 1"), naked("SELECT 2")]);
    let columns = vec![("a".to_string(), PgCatalogType::Int8)];
    src.fetch_metadata(&columns);
    let parts = src.partition();
    assert_eq!(parts.len(), 2);
    assert_eq!(parts[0].query.as_str(), "SELECT 1");
    assert_eq!(parts[1].query.as_str(), "SELECT 2");
    assert_eq!(parts[0].ncols(), 1);
    assert_eq!(parts[0].nrows(), 0);
    assert_eq!(parts[0].schema.len(), 1);
}

#[test]
fn interpret_count_accepts_the_three_int_widths() {
    assert_eq!(interpret_count(&CountValue::Int2(7)).unwrap(), 7);
    assert_eq!(interpret_count(&CountValue::Int4(40000)).unwrap(), 40000);
    assert_eq!(interpret_count(&CountValue::Int8(0)).unwrap(), 0);
    let r = interpret_count(&CountValue::NotInt);
    assert!(matches!(r, Err(PostgresSourceError::Other(_))));
}

#[test]
fn partition_result_rows_records_count() {
    let mut part: PostgresSourcePartition<CSVProtocol> = PostgresSourcePartition::new(
        &naked("SELECT * FROM t"),
        &vec![PostgresTypeSystem::Int4(true)],
        &vec![PgCatalogType::Int4],
    );
    part.result_rows(&CountValue::Int8(42)).unwrap();
    assert_eq!(part.nrows(), 42);
    assert!(part.result_rows(&CountValue::NotInt).is_err());
    assert_eq!(part.nrows(), 42);
}

#[test]
fn count_query_wraps_a_single_select() {
    let q = naked("SELECT * FROM t WHERE false");
    let c = count_query(&q).unwrap();
    assert_eq!(c.as_str(), "SELECT COUNT(*) FROM (SELECT * FROM t WHERE false) AS CXTMPTAB_COUNT");
}

#[test]
fn count_query_refuses_what_is_not_one_select() {
    assert!(matches!(count_query(&naked("this is not sql")), Err(PostgresSourceError::Other(_))));
    assert!(matches!(
        count_query(&naked("DROP TABLE t")),
        Err(PostgresSourceError::Other(_))
    ));
    assert!(matches!(
        count_query(&naked("SELECT 1; SELECT 2")),
        Err(PostgresSourceError::Other(_))
    ));
}

#[test]
fn origin_count_query_follows_the_origin_query() {
    let mut src: PostgresSource<CSVProtocol> = PostgresSource::new(1);
    assert!(matches!(src.origin_count_query(), Ok(None)));
    src.set_origin_query(Some("SELECT * FROM t WHERE false".to_string()));
    let c = src.origin_count_query().unwrap().unwrap();
    assert_eq!(c.as_str(), "SELECT COUNT(*) FROM (SELECT * FROM t WHERE false) AS CXTMPTAB_COUNT");
    src.set_origin_query(Some("gibberish".to_string()));
    assert!(src.origin_count_query().is_err());
}

#[test]
fn copy_wrappings_embed_the_query_verbatim() {
    let q = naked("SELECT a, b FROM t");
    assert_eq!(copy_binary_query(&q), "COPY (SELECT a, b FROM t) TO STDOUT WITH BINARY");
    assert_eq!(copy_csv_query(&q), "COPY (SELECT a, b FROM t) TO STDOUT WITH CSV");
}

#[test]
fn catalog_names_map_to_logical_types() {
    assert!(matches!(PgCatalogType::from_name("bool"), Ok(PgCatalogType::Bool)));
    assert!(matches!(PgCatalogType::from_name("_int4"), Ok(PgCatalogType::Int4Array)));
    assert!(matches!(PgCatalogType::from_name("hstore"), Ok(PgCatalogType::HStore)));
    assert!(matches!(PgCatalogType::from_name("timestamptz"), Ok(PgCatalogType::TimestampTz)));
    let r = PgCatalogType::from_name("cidr");
    assert!(matches!(
        r,
        Err(PostgresSourceError::ConnectorX(ConnectorXError::TypeConversion(_)))
    ));
    assert!(matches!(
        PostgresTypeSystem::from_catalog(PgCatalogType::Numeric),
        PostgresTypeSystem::Numeric(true)
    ));
}

#[test]
fn type_pairs_collapse_character_types_to_text() {
    let p = PostgresTypePairs(PgCatalogType::BpChar, PostgresTypeSystem::BpChar(true));
    assert!(matches!(p.canonical(), PgCatalogType::Text));
    let q = PostgresTypePairs(PgCatalogType::Name, PostgresTypeSystem::Name(true));
    assert!(matches!(q.canonical(), PgCatalogType::Name));
    let r = PostgresTypePairs(PgCatalogType::Int8, PostgresTypeSystem::Int8(true));
    assert!(matches!(r.canonical(), PgCatalogType::Int8));
}
