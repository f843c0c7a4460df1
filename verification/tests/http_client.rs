use masterror::convert::http_client::{http_client_error, HttpClientFailure, UrlParts};
use masterror::convert::multipart::{multipart_error, MultipartFailure};
use masterror::{AppErrorKind, FieldRedaction, FieldValue};

/// A failed request with no flags set.
fn failure(status: Option<u16>) -> HttpClientFailure {
    HttpClientFailure {
        is_timeout: false,
        is_connect: false,
        is_request: false,
        is_status: status.is_some(),
        is_body: false,
        is_decode: false,
        is_redirect: false,
        status,
        url: None,
    }
}

#[test]
fn too_many_requests_is_rate_limited_with_retry() {
    let err = http_client_error(&failure(Some(429)), vec!["429".into()]);
    assert_eq!(err.kind, AppErrorKind::RateLimited);
    assert_eq!(err.retry.map(|r| r.after_seconds), Some(1));
    assert_eq!(err.metadata().get("http.status"), Some(&FieldValue::U64(429)));
    assert_eq!(err.metadata().get("http.status_reason"), Some(&FieldValue::Str("Too Many Requests".into())));
}

#[test]
fn server_errors_are_unavailable_dependencies() {
    let err = http_client_error(&failure(Some(503)), vec![]);
    assert_eq!(err.kind, AppErrorKind::DependencyUnavailable);
    assert!(err.retry.is_none());
    let err = http_client_error(&failure(Some(408)), vec![]);
    assert_eq!(err.kind, AppErrorKind::Timeout);
    let err = http_client_error(&failure(Some(404)), vec![]);
    assert_eq!(err.kind, AppErrorKind::ExternalApi);
    assert_eq!(err.metadata().get("http.status_reason"), Some(&FieldValue::Str("Not Found".into())));
    let err = http_client_error(&failure(Some(599)), vec![]);
    assert_eq!(err.metadata().get("http.status_reason"), None);
}

#[test]
fn connect_failures_are_network_errors_and_timeouts_win() {
    let mut f = failure(None);
    f.is_connect = true;
    assert_eq!(http_client_error(&f, vec![]).kind, AppErrorKind::Network);
    f.is_timeout = true;
    assert_eq!(http_client_error(&f, vec![]).kind, AppErrorKind::Timeout);
}

#[test]
fn url_is_hashed_and_split() {
    let mut f = failure(None);
    f.url = Some(UrlParts {
        text: "https://api.example.com:8443/v1/users?id=7".into(),
        host: Some("api.example.com".into()),
        port: Some(8443),
        path: "/v1/users".into(),
        scheme: "https".into(),
    });
    let err = http_client_error(&f, vec![]);
    let metadata = err.metadata();
    assert_eq!(metadata.redaction("http.url"), Some(FieldRedaction::Hash));
    assert_eq!(metadata.get("http.host"), Some(&FieldValue::Str("api.example.com".into())));
    assert_eq!(metadata.get("http.port"), Some(&FieldValue::U64(8443)));
    assert_eq!(metadata.get("http.path"), Some(&FieldValue::Str("/v1/users".into())));
    assert_eq!(metadata.get("http.scheme"), Some(&FieldValue::Str("https".into())));
}

#[test]
fn multipart_rejections_are_bad_requests() {
    let f = MultipartFailure { body_text: "field too large".into(), status: 413 };
    let err = multipart_error(&f, vec!["field too large".into()]);
    assert_eq!(err.kind, AppErrorKind::BadRequest);
    let metadata = err.metadata();
    assert_eq!(metadata.get("multipart.reason"), Some(&FieldValue::Str("field too large".into())));
    assert_eq!(metadata.get("http.status"), Some(&FieldValue::U64(413)));
    assert_eq!(metadata.get("http.is_client_error"), Some(&FieldValue::Bool(true)));
    assert_eq!(metadata.get("http.status_reason"), Some(&FieldValue::Str("Payload Too Large".into())));
}
