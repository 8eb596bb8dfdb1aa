use alfrusco::response::{seconds_value, Seconds};
use alfrusco::{CacheSettings, Item, Response};

#[test]
fn test_utf8_conversion_error() -> std::result::Result<(), Box<dyn std::error::Error>> {
    let buffer = vec![0xFF];
    let result = String::from_utf8(buffer);
    assert!(result.is_err());
    let err = result.unwrap_err();
    assert!(err.to_string().contains("invalid utf-8"));
    Ok(())
}

#[test]
fn test_response_new() {
    let response = Response::new();
    assert!(response.items.is_empty());
    assert_eq!(response, Response::default());
}

#[test]
fn test_response_with_multiple_settings() {
    let mut response = Response::new_with_items(vec![Item::new("Test Item")]);
    response.rerun(5000);
    response.skip_knowledge(true);
    response.cache(60000, false);
    assert_eq!(response.rerun, Some(5000));
    assert_eq!(response.skip_knowledge, Some(true));
    assert_eq!(
        response.cache,
        Some(CacheSettings { seconds: Some(60000), loose_reload: Some(false) })
    );
    assert_eq!(response.items[0].title, "Test Item");
}

#[test]
fn response_test_append_items() {
    let mut response = Response::new_with_items(vec![Item::new("First Item")]);
    response.append_items(vec![Item::new("Second Item"), Item::new("Third Item")]);
    let titles: Vec<&str> = response.items.iter().map(|i| i.title.as_str()).collect();
    assert_eq!(titles, vec!["First Item", "Second Item", "Third Item"]);
}

#[test]
fn response_test_prepend_items() {
    let mut response = Response::new_with_items(vec![Item::new("Last Item")]);
    response.prepend_items(vec![Item::new("First Item"), Item::new("Second Item")]);
    let titles: Vec<&str> = response.items.iter().map(|i| i.title.as_str()).collect();
    assert_eq!(titles, vec!["First Item", "Second Item", "Last Item"]);
}

#[test]
fn test_duration_as_seconds_edge_cases() {
    assert_eq!(seconds_value(0), Seconds::Whole(0));
    assert_eq!(seconds_value(5000), Seconds::Whole(5));
    assert_eq!(seconds_value(1500), Seconds::Millis(1500));
    assert_eq!(seconds_value(u64::MAX), Seconds::Millis(u64::MAX));
}
