use pacs_merge::config::load_config_from_str;
use pacs_merge::merge::{
    build_merge_body, build_merge_request, build_merge_url, is_success_status, outcome_message,
    status_decimal,
};

#[test]
fn url_construction() {
    let url = build_merge_url("http://host:8042", "abc-123");
    assert_eq!(url, "http://host:8042/studies/abc-123/merge");
}

#[test]
fn url_is_not_normalized() {
    let url = build_merge_url("http://host:8042/", "a/b");
    assert_eq!(url, "http://host:8042//studies/a/b/merge");
}

#[test]
fn body_construction() {
    let body = build_merge_body("s1");
    assert_eq!(body, "{\"Resources\":[\"s1\"]}");
}

#[test]
fn body_is_not_escaped() {
    let body = build_merge_body("s\"1");
    assert_eq!(body, "{\"Resources\":[\"s\"1\"]}");
}

#[test]
fn success_statuses() {
    assert!(!is_success_status(199));
    assert!(is_success_status(200));
    assert!(is_success_status(204));
    assert!(is_success_status(299));
    assert!(!is_success_status(300));
    assert!(!is_success_status(404));
    assert!(!is_success_status(500));
}

#[test]
fn outcome_of_success_status() {
    assert_eq!(outcome_message(200), "Series merged successfully!");
    assert_eq!(outcome_message(201), "Series merged successfully!");
}

#[test]
fn outcome_of_failure_status() {
    assert_eq!(outcome_message(404), "Failed to merge series. Status: 404");
    assert_eq!(outcome_message(500), "Failed to merge series. Status: 500");
}

#[test]
fn decimal_rendering() {
    assert_eq!(status_decimal(0), "0");
    assert_eq!(status_decimal(7), "7");
    assert_eq!(status_decimal(10), "10");
    assert_eq!(status_decimal(99), "99");
    assert_eq!(status_decimal(100), "100");
    assert_eq!(status_decimal(404), "404");
    assert_eq!(status_decimal(9999), "9999");
    assert_eq!(status_decimal(10000), "10000");
    assert_eq!(status_decimal(65535), "65535");
}

#[test]
fn scenario_end_to_end() {
    let text = "server_address = \"http://pacs.local\"\nusername = \"u\"\npassword = \"p\"\n";
    let config = load_config_from_str(text).unwrap();
    let request = build_merge_request(&config, "STUDY1", "SER2");
    assert_eq!(request.url, "http://pacs.local/studies/STUDY1/merge");
    assert_eq!(request.body, "{\"Resources\":[\"SER2\"]}");
    assert_eq!(request.username, "u");
    assert_eq!(request.password, "p");
}
