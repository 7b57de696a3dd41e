use athena_cli::errors::QueryError;
use athena_cli::locator::path_style_uri;
use athena_cli::locator::resolve;
use athena_cli::locator::scheme_uri;
use athena_cli::locator::virtual_hosted_uri;
use athena_cli::locator::ResultAddress;

#[test]
fn resolves_scheme_form() {
    let addr = resolve("s3://my-bucket/results/q1.csv").unwrap();
    assert_eq!(addr.container, "my-bucket");
    assert_eq!(addr.key, "results/q1.csv");
}

#[test]
fn resolves_virtual_hosted_form() {
    let addr = resolve("https://my-bucket.s3.eu-west-1.amazonaws.com/results/q1.csv").unwrap();
    assert_eq!(addr.container, "my-bucket");
    assert_eq!(addr.key, "results/q1.csv");
}

#[test]
fn resolves_path_style_form() {
    let addr = resolve("https://s3.eu-west-1.amazonaws.com/my-bucket/results/q1.csv").unwrap();
    assert_eq!(addr.container, "my-bucket");
    assert_eq!(addr.key, "results/q1.csv");
}

#[test]
fn round_trips_each_rendered_shape() {
    let addr = ResultAddress {
        container: "b".to_string(),
        key: "k/obj.csv".to_string(),
    };

    let scheme = scheme_uri(&addr);
    assert_eq!(scheme, "s3://b/k/obj.csv");
    let back = resolve(&scheme).unwrap();
    assert_eq!(back.container, "b");
    assert_eq!(back.key, "k/obj.csv");

    let virtual_hosted = virtual_hosted_uri(&addr, "eu-west-1");
    assert_eq!(virtual_hosted, "https://b.s3.eu-west-1.amazonaws.com/k/obj.csv");
    let back = resolve(&virtual_hosted).unwrap();
    assert_eq!(back.container, "b");
    assert_eq!(back.key, "k/obj.csv");

    let path_style = path_style_uri(&addr, "eu-west-1");
    assert_eq!(path_style, "https://s3.eu-west-1.amazonaws.com/b/k/obj.csv");
    let back = resolve(&path_style).unwrap();
    assert_eq!(back.container, "b");
    assert_eq!(back.key, "k/obj.csv");
}

#[test]
fn rejects_unsupported_shapes() {
    // no scheme at all
    assert!(matches!(resolve("not a uri"), Err(QueryError::InvalidResultUri(_))));
    // scheme form without a key
    assert!(matches!(resolve("s3://my-bucket"), Err(QueryError::InvalidResultUri(_))));
    // scheme form with an empty key
    assert!(matches!(resolve("s3://my-bucket/"), Err(QueryError::InvalidResultUri(_))));
    // scheme form with an empty container
    assert!(matches!(resolve("s3:///key"), Err(QueryError::InvalidResultUri(_))));
    // virtual-hosted form with an empty key
    assert!(matches!(
        resolve("https://my-bucket.s3.eu-west-1.amazonaws.com/"),
        Err(QueryError::InvalidResultUri(_))
    ));
    // path-style form with only a container
    assert!(matches!(
        resolve("https://s3.eu-west-1.amazonaws.com/my-bucket"),
        Err(QueryError::InvalidResultUri(_))
    ));
    // authority without any path
    assert!(matches!(
        resolve("https://s3.eu-west-1.amazonaws.com"),
        Err(QueryError::InvalidResultUri(_))
    ));
}

#[test]
fn path_style_applies_to_any_other_host() {
    let addr = resolve("https://example.org/bucket/key.csv").unwrap();
    assert_eq!(addr.container, "bucket");
    assert_eq!(addr.key, "key.csv");
}
