use docling_rs::client::{api_error, is_success_status, mime_for_extension, seconds_string};
use docling_rs::{DoclingClient, DoclingError, Endpoint, Method};

#[test]
fn url_no_trailing_slash() {
    let client = DoclingClient::new("http://localhost:5001");
    assert_eq!(client.url("/health"), "http://localhost:5001/health");
}

#[test]
fn url_trailing_slash_stripped() {
    let client = DoclingClient::new("http://localhost:5001/");
    assert_eq!(client.url("/health"), "http://localhost:5001/health");
}

#[test]
fn url_multiple_trailing_slashes_stripped() {
    let client = DoclingClient::new("http://localhost:5001///");
    assert_eq!(client.url("/health"), "http://localhost:5001/health");
}

#[test]
fn url_deep_path() {
    let client = DoclingClient::new("http://localhost:5001");
    assert_eq!(client.url("/v1/convert/source"), "http://localhost:5001/v1/convert/source");
}

#[test]
fn with_api_key_also_strips_trailing_slash() {
    let client = DoclingClient::with_api_key("http://localhost:5001/", "key");
    assert_eq!(client.url("/health"), "http://localhost:5001/health");
    assert_eq!(client.api_key(), Some("key"));
}

#[test]
fn base_url_forms_join_identically() {
    let a = DoclingClient::new("http://h:1");
    let b = DoclingClient::new("http://h:1/");
    let c = DoclingClient::new("http://h:1///");
    for path in ["/health", "/v1/result/t", ""] {
        assert_eq!(a.url(path), b.url(path));
        assert_eq!(a.url(path), c.url(path));
    }
    assert_eq!(c.base_url(), "http://h:1");
    assert_eq!(DoclingClient::new("///").base_url(), "");
}

#[test]
fn health_and_version_never_carry_the_credential() {
    let client = DoclingClient::with_api_key("http://localhost:5001", "my-secret-key");
    assert_eq!(client.authorization(&Endpoint::Health), None);
    assert_eq!(client.authorization(&Endpoint::Version), None);
    let req = client.request(&Endpoint::Health);
    assert_eq!(req.method, Method::Get);
    assert_eq!(req.url, "http://localhost:5001/health");
    assert_eq!(req.authorization, None);
}

#[test]
fn secured_endpoints_carry_the_bearer_credential() {
    let client = DoclingClient::with_api_key("http://localhost:5001", "api-token-xyz");
    let endpoints = vec![
        Endpoint::ConvertSource,
        Endpoint::ConvertSourceAsync,
        Endpoint::ConvertFile,
        Endpoint::ConvertFileAsync,
        Endpoint::PollStatus { task_id: "task-x".to_string(), wait_millis: None },
        Endpoint::TaskResult { task_id: "task-x".to_string() },
    ];
    for e in endpoints.iter() {
        assert_eq!(client.authorization(e), Some("Bearer api-token-xyz".to_string()));
    }
}

#[test]
fn without_api_key_no_auth_header() {
    let client = DoclingClient::new("http://localhost:5001");
    assert_eq!(client.authorization(&Endpoint::ConvertSource), None);
    assert_eq!(client.authorization(&Endpoint::Health), None);
}

#[test]
fn endpoint_methods_and_urls() {
    let client = DoclingClient::new("http://localhost:5001/");
    let cases = vec![
        (Endpoint::Version, Method::Get, "http://localhost:5001/version"),
        (Endpoint::ConvertSource, Method::Post, "http://localhost:5001/v1/convert/source"),
        (Endpoint::ConvertSourceAsync, Method::Post, "http://localhost:5001/v1/convert/source/async"),
        (Endpoint::ConvertFile, Method::Post, "http://localhost:5001/v1/convert/file"),
        (Endpoint::ConvertFileAsync, Method::Post, "http://localhost:5001/v1/convert/file/async"),
        (Endpoint::TaskResult { task_id: "task-004".to_string() }, Method::Get, "http://localhost:5001/v1/result/task-004"),
    ];
    for (e, m, url) in cases.iter() {
        let req = client.request(e);
        assert_eq!(req.method, *m);
        assert_eq!(req.url, *url);
    }
}

#[test]
fn poll_task_status_with_wait_param() {
    let client = DoclingClient::new("http://localhost:5001");
    let e = Endpoint::PollStatus { task_id: "task-002".to_string(), wait_millis: Some(5000) };
    assert_eq!(client.request(&e).url, "http://localhost:5001/v1/status/poll/task-002?wait=5");
}

#[test]
fn poll_task_status_without_wait_param() {
    let client = DoclingClient::new("http://localhost:5001");
    let e = Endpoint::PollStatus { task_id: "task-003".to_string(), wait_millis: None };
    assert_eq!(client.request(&e).url, "http://localhost:5001/v1/status/poll/task-003");
}

#[test]
fn wait_seconds_are_written_in_decimal() {
    assert_eq!(seconds_string(0), "0");
    assert_eq!(seconds_string(1000), "1");
    assert_eq!(seconds_string(2500), "2.5");
    assert_eq!(seconds_string(50), "0.05");
    assert_eq!(seconds_string(1005), "1.005");
    assert_eq!(seconds_string(120340), "120.34");
}

#[test]
fn success_range_is_two_hundreds() {
    assert!(is_success_status(200));
    assert!(is_success_status(204));
    assert!(is_success_status(299));
    assert!(!is_success_status(199));
    assert!(!is_success_status(300));
    assert!(!is_success_status(422));
    assert!(!is_success_status(500));
}

#[test]
fn convert_source_422_returns_api_error() {
    let body = r#"{"detail":[{"loc":["body","sources"],"msg":"field required","type":"missing"}]}"#;
    match api_error(422, Some(body.to_string())) {
        DoclingError::Api { status_code, body: b } => {
            assert_eq!(status_code, 422);
            assert_eq!(b, body);
        }
        other => panic!("Expected DoclingError::Api, got: {:?}", other),
    }
}

#[test]
fn convert_source_500_empty_body() {
    match api_error(500, Some(String::new())) {
        DoclingError::Api { status_code, body } => {
            assert_eq!(status_code, 500);
            assert_eq!(body, "");
        }
        other => panic!("Expected DoclingError::Api, got: {:?}", other),
    }
}

#[test]
fn unreadable_body_becomes_empty_text() {
    match api_error(503, None) {
        DoclingError::Api { status_code, body } => {
            assert_eq!(status_code, 503);
            assert_eq!(body, "");
        }
        other => panic!("Expected DoclingError::Api, got: {:?}", other),
    }
}

#[test]
fn mime_types_by_extension() {
    assert_eq!(mime_for_extension(Some("pdf")), "application/pdf");
    assert_eq!(
        mime_for_extension(Some("docx")),
        "application/vnd.openxmlformats-officedocument.wordprocessingml.document"
    );
    assert_eq!(mime_for_extension(Some("htm")), "text/html");
    assert_eq!(mime_for_extension(Some("jpeg")), "image/jpeg");
    assert_eq!(mime_for_extension(Some("tif")), "image/tiff");
    assert_eq!(mime_for_extension(Some("mp3")), "audio/mpeg");
    assert_eq!(mime_for_extension(Some("vtt")), "text/vtt");
    assert_eq!(mime_for_extension(Some("PDF")), "application/octet-stream");
    assert_eq!(mime_for_extension(Some("exe")), "application/octet-stream");
    assert_eq!(mime_for_extension(None), "application/octet-stream");
}
