use image_fetcher::status::{
    decimal_string, is_success, render_status, status_line, UNKNOWN_REASON,
};

#[test]
fn success_is_200_to_299() {
    assert!(is_success(200));
    assert!(is_success(204));
    assert!(is_success(299));
}

#[test]
fn codes_next_to_the_success_range_fail() {
    assert!(!is_success(199));
    assert!(!is_success(300));
}

#[test]
fn other_codes_fail() {
    assert!(!is_success(0));
    assert!(!is_success(100));
    assert!(!is_success(301));
    assert!(!is_success(404));
    assert!(!is_success(500));
    assert!(!is_success(u16::MAX));
}

#[test]
fn is_success_agrees_with_the_http_client() {
    for code in 100..1000u16 {
        let status = reqwest::StatusCode::from_u16(code).unwrap();
        assert_eq!(is_success(code), status.is_success());
    }
}

#[test]
fn decimal_string_of_small_and_large_numbers() {
    assert_eq!(decimal_string(0), "0");
    assert_eq!(decimal_string(7), "7");
    assert_eq!(decimal_string(10), "10");
    assert_eq!(decimal_string(404), "404");
    assert_eq!(decimal_string(1000), "1000");
    assert_eq!(decimal_string(65535), "65535");
}

#[test]
fn decimal_string_agrees_with_std() {
    for n in 0..=u16::MAX {
        assert_eq!(decimal_string(n), n.to_string());
    }
}

#[test]
fn render_status_with_a_reason() {
    assert_eq!(render_status(404, Some("Not Found")), "404 Not Found");
    assert_eq!(render_status(200, Some("OK")), "200 OK");
}

#[test]
fn render_status_without_a_reason() {
    assert_eq!(UNKNOWN_REASON, "<unknown status code>");
    assert_eq!(render_status(799, None), "799 <unknown status code>");
}

#[test]
fn status_line_of_known_codes() {
    assert_eq!(status_line(200), "200 OK");
    assert_eq!(status_line(301), "301 Moved Permanently");
    assert_eq!(status_line(404), "404 Not Found");
    assert_eq!(status_line(500), "500 Internal Server Error");
    assert_eq!(status_line(503), "503 Service Unavailable");
}

#[test]
fn status_line_of_a_code_without_a_phrase() {
    assert_eq!(status_line(799), "799 <unknown status code>");
}

#[test]
fn status_line_of_a_number_that_is_no_status() {
    assert_eq!(status_line(42), "42 <unknown status code>");
    assert_eq!(status_line(1000), "1000 <unknown status code>");
}

#[test]
fn status_line_agrees_with_the_http_client() {
    for code in 100..1000u16 {
        let status = reqwest::StatusCode::from_u16(code).unwrap();
        assert_eq!(status_line(code), status.to_string());
    }
}
