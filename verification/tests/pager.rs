use athena_cli::errors::QueryError;
use athena_cli::pager::apply_rows;
use athena_cli::pager::collect_pages;
use athena_cli::pager::table_from_header;
use athena_cli::pager::ResultPage;

fn row(cells: &[&str]) -> Vec<String> {
    cells.iter().map(|c| c.to_string()).collect()
}

#[test]
fn collects_three_pages_into_uniform_columns() {
    let pages = vec![
        ResultPage {
            rows: vec![row(&["id", "name"]), row(&["1", "a"]), row(&["2", "b"])],
            next_cursor: Some("t1".to_string()),
        },
        ResultPage {
            rows: vec![row(&["3", "c"])],
            next_cursor: Some("t2".to_string()),
        },
        ResultPage {
            rows: vec![row(&["4", "d"]), row(&["5", "e"])],
            next_cursor: None,
        },
    ];
    let table = collect_pages(&pages).unwrap();
    assert_eq!(table.column_names, vec!["id".to_string(), "name".to_string()]);
    assert_eq!(table.columns.len(), 2);
    // every column vector has length equal to the total data-row count
    assert_eq!(table.columns[0].len(), 5);
    assert_eq!(table.columns[1].len(), 5);
    assert_eq!(table.row_count(), 5);
    assert_eq!(table.column_count(), 2);
    assert_eq!(table.columns[0], vec!["1", "2", "3", "4", "5"]);
    assert_eq!(table.columns[1], vec!["a", "b", "c", "d", "e"]);
}

#[test]
fn header_only_result_yields_zero_rows() {
    let pages = vec![ResultPage {
        rows: vec![row(&["id", "name", "value"])],
        next_cursor: None,
    }];
    let table = collect_pages(&pages).unwrap();
    assert_eq!(
        table.column_names,
        vec!["id".to_string(), "name".to_string(), "value".to_string()]
    );
    assert_eq!(table.columns.len(), 3);
    assert_eq!(table.row_count(), 0);
    for column in &table.columns {
        assert!(column.is_empty());
    }
}

#[test]
fn header_only_across_pages_yields_zero_rows() {
    let pages = vec![
        ResultPage {
            rows: vec![row(&["id"])],
            next_cursor: Some("t1".to_string()),
        },
        ResultPage {
            rows: vec![],
            next_cursor: None,
        },
    ];
    let table = collect_pages(&pages).unwrap();
    assert_eq!(table.column_names, vec!["id".to_string()]);
    assert_eq!(table.row_count(), 0);
}

#[test]
fn short_row_is_a_service_error() {
    let pages = vec![ResultPage {
        rows: vec![row(&["id", "name"]), row(&["1"])],
        next_cursor: None,
    }];
    assert!(matches!(collect_pages(&pages), Err(QueryError::ServiceError(_))));
}

#[test]
fn long_row_is_a_service_error() {
    let pages = vec![ResultPage {
        rows: vec![row(&["id"]), row(&["1", "extra"])],
        next_cursor: None,
    }];
    assert!(matches!(collect_pages(&pages), Err(QueryError::ServiceError(_))));
}

#[test]
fn no_rows_at_all_yields_an_empty_table() {
    let pages = vec![ResultPage {
        rows: vec![],
        next_cursor: None,
    }];
    let table = collect_pages(&pages).unwrap();
    assert!(table.column_names.is_empty());
    assert!(table.columns.is_empty());
    assert_eq!(table.row_count(), 0);
}

#[test]
fn apply_rows_appends_in_column_order() {
    let header = row(&["x", "y"]);
    let mut table = table_from_header(&header);
    let rows = vec![row(&["1", "2"]), row(&["3", "4"])];
    apply_rows(&mut table, &rows, 0).unwrap();
    assert_eq!(table.columns[0], vec!["1", "3"]);
    assert_eq!(table.columns[1], vec!["2", "4"]);

    // a mismatched batch leaves the table untouched
    let bad = vec![row(&["5"])];
    assert!(apply_rows(&mut table, &bad, 0).is_err());
    assert_eq!(table.columns[0], vec!["1", "3"]);
    assert_eq!(table.columns[1], vec!["2", "4"]);
}
