use gifdex::query::{next_cursor, page_limit, DEFAULT_PAGE_SIZE, MAX_PAGE_SIZE};
use gifdex::timestamps::{optional_record_timestamp, record_timestamp};

#[test]
fn page_limit_defaults_and_caps() {
    assert_eq!(page_limit(None), DEFAULT_PAGE_SIZE);
    assert_eq!(page_limit(Some(10)), 10);
    assert_eq!(page_limit(Some(100)), 100);
    assert_eq!(page_limit(Some(1000)), MAX_PAGE_SIZE);
}

#[test]
fn cursor_only_for_full_pages() {
    assert_eq!(next_cursor(&vec![30, 20, 10], 3), Some(10));
    assert_eq!(next_cursor(&vec![30, 20], 3), None);
    assert_eq!(next_cursor(&vec![], 0), None);
}

#[test]
fn record_timestamps_are_epoch_seconds() {
    assert_eq!(record_timestamp("1970-01-01T00:00:00Z"), Some(0));
    assert_eq!(record_timestamp("2024-01-01T00:00:00Z"), Some(1_704_067_200));
    assert_eq!(record_timestamp("2024-01-01T01:00:00+01:00"), Some(1_704_067_200));
    assert_eq!(record_timestamp("yesterday"), None);
    assert_eq!(optional_record_timestamp(&None), Ok(None));
    assert_eq!(optional_record_timestamp(&Some("1970-01-01T00:01:00Z".to_string())), Ok(Some(60)));
    assert_eq!(optional_record_timestamp(&Some("soon".to_string())), Err(()));
}
