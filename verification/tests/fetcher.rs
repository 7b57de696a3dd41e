use athena_cli::errors::QueryError;
use athena_cli::fetcher::download_target;
use athena_cli::fetcher::file_name_of_key;

#[test]
fn filename_is_the_last_key_segment() {
    assert_eq!(file_name_of_key("results/q1.csv").unwrap(), "q1.csv");
    assert_eq!(file_name_of_key("a/b/c/data.parquet").unwrap(), "data.parquet");
    assert_eq!(file_name_of_key("plain.csv").unwrap(), "plain.csv");
}

#[test]
fn key_ending_in_slash_has_no_filename() {
    assert!(matches!(
        file_name_of_key("results/"),
        Err(QueryError::InvalidResultUri(_))
    ));
    assert!(matches!(file_name_of_key("/"), Err(QueryError::InvalidResultUri(_))));
    assert!(matches!(file_name_of_key(""), Err(QueryError::InvalidResultUri(_))));
}

#[test]
fn download_target_joins_directory_and_filename() {
    assert_eq!(download_target("out", "results/q1.csv").unwrap(), "out/q1.csv");
    assert_eq!(download_target("out/", "results/q1.csv").unwrap(), "out/q1.csv");
    assert_eq!(download_target(".", "q1.csv").unwrap(), "./q1.csv");
}

#[test]
fn download_of_directory_like_key_fails() {
    assert!(matches!(
        download_target("out", "results/"),
        Err(QueryError::InvalidResultUri(_))
    ));
}
