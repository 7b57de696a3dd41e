use athena_cli::filter::filter_items;
use athena_cli::filter::matches_pattern;

// Define a simple struct to test filtering
#[derive(PartialEq, Debug)]
struct TestItem {
    name: String,
    category: String,
    count: i32,
}

#[test]
fn test_matches_pattern() {
    // Test exact match
    assert!(matches_pattern("hello", "hello"));

    // Test substring match (should match if we updated the function)
    assert!(matches_pattern("hello world", "hello"));

    // Test case insensitivity
    assert!(matches_pattern("Hello World", "hello"));

    // Test wildcard patterns
    assert!(matches_pattern("hello world", "hello*"));
    assert!(matches_pattern("hello world", "*world"));
    assert!(matches_pattern("hello world", "*lo wor*"));

    // Test non-matches
    assert!(!matches_pattern("hello", "world"));
    assert!(!matches_pattern("hello", "hello world"));
}

#[test]
fn test_filter_items() {
    // Create a test vector
    let items = vec![
        TestItem {
            name: "Table1".to_string(),
            category: "Data".to_string(),
            count: 10,
        },
        TestItem {
            name: "UserEvents".to_string(),
            category: "Events".to_string(),
            count: 20,
        },
        TestItem {
            name: "EventLog".to_string(),
            category: "Events".to_string(),
            count: 30,
        },
        TestItem {
            name: "Settings".to_string(),
            category: "Config".to_string(),
            count: 40,
        },
    ];

    // Test filtering by name
    let filtered = filter_items(&items, Some("event"), |item| &item.name);
    assert_eq!(filtered.len(), 2);
    assert!(filtered.contains(&&items[1])); // UserEvents
    assert!(filtered.contains(&&items[2])); // EventLog

    // Test filtering by category
    let filtered = filter_items(&items, Some("events"), |item| &item.category);
    assert_eq!(filtered.len(), 2);
    assert!(filtered.contains(&&items[1])); // UserEvents
    assert!(filtered.contains(&&items[2])); // EventLog

    // Test filtering with wildcard
    let filtered = filter_items(&items, Some("*Log"), |item| &item.name);
    assert_eq!(filtered.len(), 1);
    assert!(filtered.contains(&&items[2])); // EventLog

    // Test filtering with no matches
    let filtered = filter_items(&items, Some("NonExistent"), |item| &item.name);
    assert_eq!(filtered.len(), 0);

    // Test with None pattern (should return all items)
    let filtered = filter_items(&items, None, |item| &item.name);
    assert_eq!(filtered.len(), items.len());
}

#[test]
fn test_wildcard_edge_patterns() {
    // A lone star matches anything, through the prefix branch
    assert!(matches_pattern("anything", "*"));
    assert!(matches_pattern("", "*"));

    // Two bare stars match anything, through the contains branch
    assert!(matches_pattern("anything", "**"));

    // A star in the middle falls back to exact equality
    assert!(!matches_pattern("ab", "a*b"));
    assert!(matches_pattern("a*b", "a*b"));

    // Prefix and suffix matching are case sensitive
    assert!(!matches_pattern("Hello world", "hello*"));
    assert!(!matches_pattern("hello World", "*world"));
}
