use postgres_source::binary::PostgresBinarySourcePartitionParser;
use postgres_source::csv_parser::PostgresCSVSourceParser;
use postgres_source::raw::PostgresRawSourceParser;
use postgres_source::typesystem::PostgresTypeSystem;
use postgres_source::DB_BUFFER_SIZE;

fn schema_of(n: usize) -> Vec<PostgresTypeSystem> {
    vec![PostgresTypeSystem::Int4(true); n]
}

#[test]
fn row_major_cursor_walks_a_row_then_wraps() {
    // ncols cursor reads yield (0,0), (0,1), ..., (0,ncols-1); one more
    // yields (1,0).
    let ncols: usize = 3;
    let mut p: PostgresBinarySourcePartitionParser<u8> =
        PostgresBinarySourcePartitionParser::new(&schema_of(ncols));
    p.fetch_next(vec![10, 20]);
    assert_eq!(p.next_loc(), (0, 0));
    assert_eq!(p.next_loc(), (0, 1));
    assert_eq!(p.next_loc(), (0, 2));
    assert_eq!(p.next_loc(), (1, 0));
    assert_eq!(p.next_loc(), (1, 1));
}

#[test]
fn binary_parser_batches_and_rows() {
    let mut p: PostgresBinarySourcePartitionParser<i32> =
        PostgresBinarySourcePartitionParser::new(&schema_of(1));
    let (n, is_last) = p.fetch_next(vec![7, 8, 9]);
    assert_eq!(n, 3);
    assert!(is_last);
    assert_eq!(*p.get_row(0), 7);
    assert_eq!(*p.get_row(2), 9);
}

#[test]
fn full_batch_is_not_last_and_empty_refetch_is() {
    let mut p: PostgresRawSourceParser<u64> = PostgresRawSourceParser::new(&schema_of(2));
    let full: Vec<u64> = (0..DB_BUFFER_SIZE as u64).collect();
    let (n, is_last) = p.fetch_next(full);
    assert_eq!(n, DB_BUFFER_SIZE);
    assert!(!is_last);
    // The stream is exhausted: the following fetch pulls nothing and
    // reports the end.
    let (n2, is_last2) = p.fetch_next(Vec::new());
    assert_eq!(n2, 0);
    assert!(is_last2);
}

#[test]
fn short_batch_is_last() {
    let mut p: PostgresRawSourceParser<u64> = PostgresRawSourceParser::new(&schema_of(2));
    let (n, is_last) = p.fetch_next(vec![1, 2, 3]);
    assert_eq!(n, 3);
    assert!(is_last);
}

#[test]
fn fetch_next_resets_the_cursor() {
    let mut p: PostgresRawSourceParser<u8> = PostgresRawSourceParser::new(&schema_of(2));
    p.fetch_next(vec![1, 2]);
    assert_eq!(p.next_loc(), (0, 0));
    assert_eq!(p.next_loc(), (0, 1));
    p.fetch_next(vec![3]);
    assert_eq!(p.next_loc(), (0, 0));
}

#[test]
fn a_batch_of_r_rows_and_c_columns_admits_r_times_c_produces() {
    // Two rows of three columns: exactly six produce calls drain the batch.
    let mut p = PostgresCSVSourceParser::new(&vec![PostgresTypeSystem::Text(true); 3]);
    let batch = vec![
        vec!["a".to_string(), "b".to_string(), "c".to_string()],
        vec!["d".to_string(), "e".to_string(), "f".to_string()],
    ];
    let (rows, _) = p.fetch_next(batch);
    let mut produced: usize = 0;
    for _ in 0..rows {
        for _ in 0..3 {
            p.produce_str().unwrap();
            produced += 1;
        }
    }
    assert_eq!(produced, rows * 3);
    assert_eq!(p.current_row, rows);
    assert_eq!(p.current_col, 0);
}

#[test]
fn binary_hstore_is_unimplemented_and_advances() {
    let mut p: PostgresBinarySourcePartitionParser<u8> =
        PostgresBinarySourcePartitionParser::new(&schema_of(2));
    p.fetch_next(vec![1, 2]);
    assert!(matches!(
        p.produce_hstore().unwrap_err(),
        postgres_source::errors::PostgresSourceError::Unimplemented(_)
    ));
    assert!(matches!(
        p.produce_opt_hstore().unwrap_err(),
        postgres_source::errors::PostgresSourceError::Unimplemented(_)
    ));
    // the cursor moved past the refused column
    assert_eq!(p.next_loc(), (1, 0));
}
