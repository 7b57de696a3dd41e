use athena_cli::validation::validate_query_syntax;

#[test]
fn test_valid_syntax() {
    let valid_queries = vec![
        "SELECT * FROM my_table",
        "SELECT id, name FROM my_table WHERE id > 10",
        "SELECT COUNT(*) FROM my_table GROUP BY category",
        "CREATE TABLE my_table (id INT, name STRING)",
        "DROP TABLE my_table",
        "INSERT INTO my_table VALUES (1, 'test')",
        "WITH t AS (SELECT * FROM my_table) SELECT * FROM t",
        "SELECT 1",            // Simple constant select
        "SELECT CURRENT_DATE", // Date function
        "SELECT NOW()",        // Current timestamp function
    ];

    for query in valid_queries {
        assert!(
            validate_query_syntax(query).is_ok(),
            "Query should be valid: {}",
            query
        );
    }
}

#[test]
fn test_invalid_syntax() {
    let invalid_queries = vec![
        "SELECT * FORM my_table",                     // Misspelled FROM
        "SELECT id, FROM my_table",                   // Extra comma
        "SELECT * FROM my_table WHERE",               // Incomplete WHERE clause
        "CREATE TABLE my_table (id INT, name STRING", // Missing closing parenthesis
        "DROP TABLE",                                 // Missing table name
        "SELECT * WHERE id = 1",                      // Missing FROM clause
    ];

    for query in invalid_queries {
        assert!(
            validate_query_syntax(query).is_err(),
            "Query should be invalid: {}",
            query
        );
    }
}

#[test]
fn select_without_from_reports_the_missing_clause() {
    let err = validate_query_syntax("SELECT * WHERE id = 1").unwrap_err();
    assert_eq!(err, "SELECT query missing FROM clause");

    let err = validate_query_syntax("SELECT * FORM my_table").unwrap_err();
    assert!(err.starts_with("failed to parse query: "));
}
