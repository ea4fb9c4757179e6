use qiniu_sdk::endpoint::IpAddr;
use qiniu_sdk::headers::HeaderMap;
use qiniu_sdk::http_error::{self, MapError, Metrics, ResponseInfo};
use qiniu_sdk::request_error::{self, Error as RequestError};
use qiniu_sdk::signing::Method;

#[test]
fn http_error_builder_sets_server_info() {
    let metrics = Metrics {
        total_duration: Some(10),
        name_lookup_duration: None,
        connect_duration: Some(3),
        secure_connect_duration: None,
        redirect_duration: None,
        transfer_duration: Some(5),
    };
    let e = http_error::Error::builder(http_error::ErrorKind::TimeoutError, "slow".to_owned())
        .server_ip(IpAddr::V4(1, 2, 3, 4))
        .server_port(8080)
        .metrics(metrics)
        .build();
    assert_eq!(e.kind(), http_error::ErrorKind::TimeoutError);
    assert_eq!(e.server_ip(), Some(IpAddr::V4(1, 2, 3, 4)));
    assert_eq!(e.server_port(), Some(8080));
    assert_eq!(e.metrics(), Some(&metrics));
    assert_eq!(e.to_message(), "slow");
    assert_eq!(e.into_inner(), "slow");
}

#[test]
fn http_error_builder_takes_default_ports_from_scheme() {
    let e = http_error::Error::builder(http_error::ErrorKind::ConnectError, "x".to_owned())
        .uri(Some("https"), None, None)
        .build();
    assert_eq!(e.server_port(), Some(443));
    let e = http_error::Error::builder(http_error::ErrorKind::ConnectError, "x".to_owned())
        .uri(Some("http"), Some(IpAddr::V4(127, 0, 0, 1)), None)
        .build();
    assert_eq!(e.server_port(), Some(80));
    assert_eq!(e.server_ip(), Some(IpAddr::V4(127, 0, 0, 1)));
    let e = http_error::Error::builder(http_error::ErrorKind::ConnectError, "x".to_owned())
        .uri(Some("http"), None, Some(9000))
        .build();
    assert_eq!(e.server_port(), Some(9000));
    let e = http_error::Error::builder(http_error::ErrorKind::ConnectError, "x".to_owned())
        .uri(Some("ftp"), None, None)
        .build();
    assert_eq!(e.server_port(), None);
}

#[test]
fn http_error_accessors_change_in_place() {
    let mut e = http_error::Error::builder(http_error::ErrorKind::SendError, "e".to_owned()).build();
    assert_eq!(e.server_port(), None);
    *e.server_port_mut() = Some(7);
    *e.server_ip_mut() = Some(IpAddr::V6(0, 0, 0, 0, 0, 0, 0, 1));
    assert_eq!(e.server_port(), Some(7));
    assert_eq!(e.server_ip(), Some(IpAddr::V6(0, 0, 0, 0, 0, 0, 0, 1)));
    assert!(e.metrics().is_none());
}

#[test]
fn map_error_keeps_error_and_info() {
    let m = MapError::new("bad".to_owned(), ResponseInfo::new());
    assert_eq!(m.into_inner(), "bad");
    let m = MapError::new("bad".to_owned(), ResponseInfo::new());
    let e = m.into_response_error(http_error::ErrorKind::ReceiveError);
    assert_eq!(e.kind(), http_error::ErrorKind::ReceiveError);
    assert_eq!(e.to_message(), "bad");
}

#[test]
fn request_error_takes_request_id_from_response() {
    let mut headers = HeaderMap::new();
    headers.insert("x-reqid", "REQ123");
    let e = RequestError::new_retryable_error(
        "io".to_owned(),
        true,
        Method::GET,
        "http://a/".to_owned(),
        Some(&headers),
    );
    assert_eq!(e.kind(), request_error::ErrorKind::RetryableError);
    assert!(e.is_retry_safe());
    assert_eq!(e.method(), Some(Method::GET));
    assert_eq!(e.url(), Some("http://a/"));
    assert_eq!(e.request_id(), Some("REQ123"));
    assert_eq!(e.description(), "io");

    let e = RequestError::new_unretryable_error("no".to_owned(), Method::POST, "u".to_owned(), None);
    assert_eq!(e.kind(), request_error::ErrorKind::UnretryableError);
    assert!(!e.is_retry_safe());
    assert_eq!(e.request_id(), None);

    let empty = HeaderMap::new();
    let e = RequestError::new_zone_unretryable_error("z".to_owned(), false, Method::PUT, "u".to_owned(), Some(&empty));
    assert_eq!(e.kind(), request_error::ErrorKind::ZoneUnretryableError);
    assert_eq!(e.request_id(), None);
    let e = RequestError::new_host_unretryable_error("h".to_owned(), true, Method::PUT, "u".to_owned(), None);
    assert_eq!(e.kind(), request_error::ErrorKind::HostUnretryableError);
}

#[test]
fn request_error_from_parts_has_no_request_id() {
    let e = RequestError::new_from_parts(
        request_error::ErrorKind::HostUnretryableError,
        "c".to_owned(),
        true,
        None,
        Some("u".to_owned()),
    );
    assert_eq!(e.kind(), request_error::ErrorKind::HostUnretryableError);
    assert_eq!(e.method(), None);
    assert_eq!(e.url(), Some("u"));
    assert_eq!(e.request_id(), None);
    let e = RequestError::new_retryable_error_from_parts("c".to_owned(), false, Some(Method::HEAD), None);
    assert_eq!(e.kind(), request_error::ErrorKind::RetryableError);
    assert!(!e.is_retry_safe());
    assert_eq!(e.url(), None);
    let e = RequestError::new_zone_unretryable_error_from_parts("c".to_owned(), true, None, None);
    assert_eq!(e.kind(), request_error::ErrorKind::ZoneUnretryableError);
    let e = RequestError::new_host_unretryable_error_from_parts("c".to_owned(), true, None, None);
    assert_eq!(e.kind(), request_error::ErrorKind::HostUnretryableError);
    let e = RequestError::new_unretryable_error_from_parts("c".to_owned(), None, None);
    assert_eq!(e.kind(), request_error::ErrorKind::UnretryableError);
    assert!(!e.is_retry_safe());
}
