use regex::Regex;
use treat_dispenser_api::utils::{
    format_system_time, get_config_path, get_formatted_current_timestamp, MAX_FORMATTED_UNIX_SECS,
};

#[test]
fn test_format_system_time() {
    // 2023-01-01 12:00:00 UTC
    let formatted = format_system_time(1672574400);
    let re = Regex::new(r"^\d{4}-\d{2}-\d{2} \d{2}:\d{2}:\d{2}$").unwrap();
    assert!(re.is_match(&formatted), "Formatted time doesn't match expected pattern: {}", formatted);
}

#[test]
fn test_get_formatted_current_timestamp() {
    let timestamp = get_formatted_current_timestamp();
    let re = Regex::new(r"^\d{4}-\d{2}-\d{2} \d{2}:\d{2}:\d{2}$").unwrap();
    assert!(re.is_match(&timestamp), "Current timestamp doesn't match expected pattern: {}", timestamp);
}

#[test]
fn formatted_times_differ_by_the_hour() {
    let a = format_system_time(1672574400);
    let b = format_system_time(1672574400 + 3600);
    assert_ne!(a, b);
    assert_eq!(&a[14..], &b[14..]);
}

#[test]
fn far_future_is_not_formatted() {
    assert_eq!(format_system_time(MAX_FORMATTED_UNIX_SECS + 1), "");
}

#[test]
fn config_path() {
    assert_eq!(get_config_path(), "/etc/treat-dispenser-api/config.yaml");
}

#[test]
fn first_day_and_last_formatted_day() {
    let re = Regex::new(r"^\d{4}-\d{2}-\d{2} \d{2}:\d{2}:\d{2}$").unwrap();
    assert!(re.is_match(&format_system_time(0)));
    assert!(re.is_match(&format_system_time(MAX_FORMATTED_UNIX_SECS)));
}
