use mcp_server_gpt_chat::status::{is_success_status, status_display, valid_status_code};
use mcp_server_gpt_chat::text::{decimal_string, join_strings, starts_with};

#[test]
fn decimal_string_writes_numbers() {
    assert_eq!(decimal_string(0), "0");
    assert_eq!(decimal_string(7), "7");
    assert_eq!(decimal_string(10), "10");
    assert_eq!(decimal_string(42), "42");
    assert_eq!(decimal_string(1000), "1000");
    assert_eq!(decimal_string(4294967295), "4294967295");
    assert_eq!(decimal_string(u64::MAX), u64::MAX.to_string());
}

#[test]
fn decimal_string_reads_back() {
    for n in [0u64, 1, 9, 10, 99, 100, 12345, 987654321, u64::MAX] {
        let s = decimal_string(n);
        assert_eq!(s.parse::<u64>().unwrap(), n);
        assert!(s == "0" || !s.starts_with('0'));
    }
}

#[test]
fn join_strings_separates_neighbours() {
    let none: Vec<String> = vec![];
    assert_eq!(join_strings(&none, "\n"), "");
    assert_eq!(join_strings(&vec!["a".to_string()], "\n"), "a");
    let parts = vec!["a".to_string(), "".to_string(), "ccc".to_string()];
    assert_eq!(join_strings(&parts, ", "), "a, , ccc");
    assert_eq!(join_strings(&parts, "\n"), parts.join("\n"));
}

#[test]
fn join_then_split_gives_back_the_lines() {
    let parts = vec!["- a (x)".to_string(), "- b (openai)".to_string(), "".to_string()];
    let joined = join_strings(&parts, "\n");
    let back: Vec<String> = joined.split('\n').map(|s| s.to_string()).collect();
    assert_eq!(back, parts);
}

#[test]
fn starts_with_tests_prefixes() {
    assert!(starts_with("https://x", "https://"));
    assert!(starts_with("http://", "http://"));
    assert!(starts_with("abc", ""));
    assert!(!starts_with("http:/", "http://"));
    assert!(!starts_with("ftp://x", "http://"));
    assert!(starts_with("héllo", "hé"));
    assert!(!starts_with("HTTP://x", "http://"));
}

#[test]
fn success_statuses_are_the_2xx_ones() {
    assert!(is_success_status(200));
    assert!(is_success_status(201));
    assert!(is_success_status(299));
    assert!(!is_success_status(199));
    assert!(!is_success_status(300));
    assert!(!is_success_status(404));
    assert!(!is_success_status(500));
    assert!(!is_success_status(0));
    assert!(!is_success_status(1000));
}

#[test]
fn valid_status_codes_are_three_digits() {
    assert!(valid_status_code(100));
    assert!(valid_status_code(999));
    assert!(!valid_status_code(99));
    assert!(!valid_status_code(1000));
}

#[test]
fn status_display_names_the_status() {
    assert_eq!(status_display(200), "200 OK");
    assert_eq!(status_display(404), "404 Not Found");
    assert_eq!(status_display(429), "429 Too Many Requests");
    assert_eq!(status_display(500), "500 Internal Server Error");
    assert_eq!(status_display(599), "599 <unknown status code>");
    assert_eq!(status_display(42), "42 <unknown status code>");
}
