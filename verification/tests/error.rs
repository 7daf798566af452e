use image_fetcher::error::{
    FetchError, BODY_READ_PREFIX, CLIENT_BUILD_PREFIX, HTTP_STATUS_PREFIX, INVALID_PROXY_PREFIX,
    NETWORK_PREFIX,
};

#[test]
fn prefixes() {
    assert_eq!(INVALID_PROXY_PREFIX, "Failed to create proxy: ");
    assert_eq!(CLIENT_BUILD_PREFIX, "Failed to build client: ");
    assert_eq!(NETWORK_PREFIX, "Request failed: ");
    assert_eq!(HTTP_STATUS_PREFIX, "Failed to fetch image: ");
    assert_eq!(BODY_READ_PREFIX, "Failed to read bytes: ");
}

#[test]
fn invalid_proxy_message() {
    let error = FetchError::InvalidProxy("builder error".to_string());
    assert_eq!(error.message(), "Failed to create proxy: builder error");
}

#[test]
fn client_build_message() {
    let error = FetchError::ClientBuildFailed("no TLS backend".to_string());
    assert_eq!(error.message(), "Failed to build client: no TLS backend");
}

#[test]
fn network_message() {
    let error = FetchError::NetworkError("error sending request".to_string());
    assert_eq!(error.message(), "Request failed: error sending request");
}

#[test]
fn http_status_message() {
    assert_eq!(
        FetchError::HttpStatusError(404).message(),
        "Failed to fetch image: 404 Not Found"
    );
    assert_eq!(
        FetchError::HttpStatusError(500).message(),
        "Failed to fetch image: 500 Internal Server Error"
    );
    assert_eq!(
        FetchError::HttpStatusError(302).message(),
        "Failed to fetch image: 302 Found"
    );
}

#[test]
fn http_status_message_of_a_code_without_a_phrase() {
    assert_eq!(
        FetchError::HttpStatusError(599).message(),
        "Failed to fetch image: 599 <unknown status code>"
    );
}

#[test]
fn body_read_message() {
    let error = FetchError::BodyReadError("connection reset".to_string());
    assert_eq!(error.message(), "Failed to read bytes: connection reset");
}

#[test]
fn message_with_empty_detail_is_the_prefix() {
    assert_eq!(FetchError::NetworkError(String::new()).message(), "Request failed: ");
}

#[test]
fn http_status_message_holds_the_code_for_every_failure_status() {
    for code in (100..200u16).chain(300..1000u16) {
        let message = FetchError::HttpStatusError(code).message();
        assert!(message.starts_with("Failed to fetch image: "));
        assert!(message.contains(&code.to_string()));
        let status = reqwest::StatusCode::from_u16(code).unwrap();
        assert_eq!(message, format!("Failed to fetch image: {}", status));
    }
}
