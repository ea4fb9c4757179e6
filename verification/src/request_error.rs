//! Errors of a request to a Qiniu service, classified by how far a retry
//! may go: the same host, another host, another zone, or none.

use crate::headers::{lookup, HeaderMap};
use crate::signing::Method;
use vstd::prelude::*;
use vstd::utf8::*;

verus! {

/// How far a failed request may be retried.
#[derive(Debug, Copy, Clone, PartialEq, Eq, Structural)]
pub enum ErrorKind {
    /// Retry on the same host.
    RetryableError,
    /// Retry in another zone only.
    ZoneUnretryableError,
    /// Retry on another host only.
    HostUnretryableError,
    /// Do not retry.
    UnretryableError,
}

/// The request ID that a response carries in its `X-Reqid` header (any
/// case), where there is a response and the header.
pub open spec fn request_id_of(response_headers: Option<Seq<(Seq<u8>, Seq<u8>)>>) -> Option<Seq<u8>> {
    match response_headers {
        Some(h) => lookup(h, encode_utf8("X-Reqid"@)),
        None => None,
    }
}

/// The view of an optional string.
pub open spec fn opt_view(s: Option<String>) -> Option<Seq<char>> {
    match s {
        Some(x) => Some(x@),
        None => None,
    }
}

/// An error of a request.
#[derive(Debug)]
pub struct Error {
    kind: ErrorKind,
    is_retry_safe: bool,
    cause: String,
    method: Option<Method>,
    request_id: Option<String>,
    url: Option<String>,
}

impl Error {
    /// How far the request may be retried.
    pub closed spec fn kind_of(self) -> ErrorKind {
        self.kind
    }

    /// Sending the request again is safe.
    pub closed spec fn retry_safe(self) -> bool {
        self.is_retry_safe
    }

    /// What caused the error.
    pub closed spec fn cause_of(self) -> Seq<char> {
        self.cause@
    }

    /// The method of the request.
    pub closed spec fn method_of(self) -> Option<Method> {
        self.method
    }

    /// The request ID, as UTF-8 bytes.
    pub closed spec fn request_id_of(self) -> Option<Seq<u8>> {
        match self.request_id {
            Some(r) => Some(encode_utf8(r@)),
            None => None,
        }
    }

    /// The URL of the request.
    pub closed spec fn url_of(self) -> Option<Seq<char>> {
        opt_view(self.url)
    }

    /// An error of a request of `method` to `url`, with the request ID of
    /// the response where there is one.
    pub fn new(
        kind: ErrorKind,
        cause: String,
        is_retry_safe: bool,
        method: Method,
        url: String,
        response_headers: Option<&HeaderMap>,
    ) -> (e: Self)
        ensures
            e.kind_of() == kind,
            e.cause_of() == cause@,
            e.retry_safe() == is_retry_safe,
            e.method_of() == Some(method),
            e.url_of() == Some(url@),
            e.request_id_of() == request_id_of(
                match response_headers {
                    Some(h) => Some(h@),
                    None => None,
                },
            ),
    {
        Error {
            kind,
            cause,
            is_retry_safe,
            method: Some(method),
            request_id: Self::extract_req_id_from_response(response_headers),
            url: Some(url),
        }
    }

    /// A retryable error of a request.
    pub fn new_retryable_error(
        cause: String,
        is_retry_safe: bool,
        method: Method,
        url: String,
        response_headers: Option<&HeaderMap>,
    ) -> (e: Self)
        ensures
            e.kind_of() == ErrorKind::RetryableError,
            e.cause_of() == cause@,
            e.retry_safe() == is_retry_safe,
            e.method_of() == Some(method),
            e.url_of() == Some(url@),
            e.request_id_of() == request_id_of(
                match response_headers {
                    Some(h) => Some(h@),
                    None => None,
                },
            ),
    {
        Self::new(ErrorKind::RetryableError, cause, is_retry_safe, method, url, response_headers)
    }

    /// An error that may be retried in another zone only.
    pub fn new_zone_unretryable_error(
        cause: String,
        is_retry_safe: bool,
        method: Method,
        url: String,
        response_headers: Option<&HeaderMap>,
    ) -> (e: Self)
        ensures
            e.kind_of() == ErrorKind::ZoneUnretryableError,
            e.cause_of() == cause@,
            e.retry_safe() == is_retry_safe,
            e.method_of() == Some(method),
            e.url_of() == Some(url@),
            e.request_id_of() == request_id_of(
                match response_headers {
                    Some(h) => Some(h@),
                    None => None,
                },
            ),
    {
        Self::new(ErrorKind::ZoneUnretryableError, cause, is_retry_safe, method, url, response_headers)
    }

    /// An error that may be retried on another host only.
    pub fn new_host_unretryable_error(
        cause: String,
        is_retry_safe: bool,
        method: Method,
        url: String,
        response_headers: Option<&HeaderMap>,
    ) -> (e: Self)
        ensures
            e.kind_of() == ErrorKind::HostUnretryableError,
            e.cause_of() == cause@,
            e.retry_safe() == is_retry_safe,
            e.method_of() == Some(method),
            e.url_of() == Some(url@),
            e.request_id_of() == request_id_of(
                match response_headers {
                    Some(h) => Some(h@),
                    None => None,
                },
            ),
    {
        Self::new(ErrorKind::HostUnretryableError, cause, is_retry_safe, method, url, response_headers)
    }

    /// An error that may not be retried; it is never safe to retry.
    pub fn new_unretryable_error(
        cause: String,
        method: Method,
        url: String,
        response_headers: Option<&HeaderMap>,
    ) -> (e: Self)
        ensures
            e.kind_of() == ErrorKind::UnretryableError,
            e.cause_of() == cause@,
            !e.retry_safe(),
            e.method_of() == Some(method),
            e.url_of() == Some(url@),
            e.request_id_of() == request_id_of(
                match response_headers {
                    Some(h) => Some(h@),
                    None => None,
                },
            ),
    {
        Self::new(ErrorKind::UnretryableError, cause, false, method, url, response_headers)
    }

    /// An error made of its parts; it has no request ID.
    pub fn new_from_parts(
        kind: ErrorKind,
        cause: String,
        is_retry_safe: bool,
        method: Option<Method>,
        url: Option<String>,
    ) -> (e: Self)
        ensures
            e.kind_of() == kind,
            e.cause_of() == cause@,
            e.retry_safe() == is_retry_safe,
            e.method_of() == method,
            e.url_of() == opt_view(url),
            e.request_id_of() is None,
    {
        Error { kind, cause, is_retry_safe, method, request_id: None, url }
    }

    /// A retryable error made of its parts.
    pub fn new_retryable_error_from_parts(
        cause: String,
        is_retry_safe: bool,
        method: Option<Method>,
        url: Option<String>,
    ) -> (e: Self)
        ensures
            e.kind_of() == ErrorKind::RetryableError,
            e.cause_of() == cause@,
            e.retry_safe() == is_retry_safe,
            e.method_of() == method,
            e.url_of() == opt_view(url),
            e.request_id_of() is None,
    {
        Error {
            kind: ErrorKind::RetryableError,
            cause,
            is_retry_safe,
            method,
            request_id: None,
            url,
        }
    }

    /// An error made of its parts that may be retried in another zone only.
    pub fn new_zone_unretryable_error_from_parts(
        cause: String,
        is_retry_safe: bool,
        method: Option<Method>,
        url: Option<String>,
    ) -> (e: Self)
        ensures
            e.kind_of() == ErrorKind::ZoneUnretryableError,
            e.cause_of() == cause@,
            e.retry_safe() == is_retry_safe,
            e.method_of() == method,
            e.url_of() == opt_view(url),
            e.request_id_of() is None,
    {
        Error {
            kind: ErrorKind::ZoneUnretryableError,
            cause,
            is_retry_safe,
            method,
            request_id: None,
            url,
        }
    }

    /// An error made of its parts that may be retried on another host only.
    pub fn new_host_unretryable_error_from_parts(
        cause: String,
        is_retry_safe: bool,
        method: Option<Method>,
        url: Option<String>,
    ) -> (e: Self)
        ensures
            e.kind_of() == ErrorKind::HostUnretryableError,
            e.cause_of() == cause@,
            e.retry_safe() == is_retry_safe,
            e.method_of() == method,
            e.url_of() == opt_view(url),
            e.request_id_of() is None,
    {
        Error {
            kind: ErrorKind::HostUnretryableError,
            cause,
            is_retry_safe,
            method,
            request_id: None,
            url,
        }
    }

    /// An error made of its parts that may not be retried.
    pub fn new_unretryable_error_from_parts(
        cause: String,
        method: Option<Method>,
        url: Option<String>,
    ) -> (e: Self)
        ensures
            e.kind_of() == ErrorKind::UnretryableError,
            e.cause_of() == cause@,
            !e.retry_safe(),
            e.method_of() == method,
            e.url_of() == opt_view(url),
            e.request_id_of() is None,
    {
        Error {
            kind: ErrorKind::UnretryableError,
            cause,
            is_retry_safe: false,
            method,
            request_id: None,
            url,
        }
    }

    /// The request ID of a response: its `X-Reqid` header.
    fn extract_req_id_from_response(response_headers: Option<&HeaderMap>) -> (r: Option<String>)
        ensures
            match r {
                Some(x) => request_id_of(
                    match response_headers {
                        Some(h) => Some(h@),
                        None => None,
                    },
                ) == Some(encode_utf8(x@)),
                None => request_id_of(
                    match response_headers {
                        Some(h) => Some(h@),
                        None => None,
                    },
                ) is None,
            },
    {
        proof {
            reveal_strlit("X-Reqid");
        }
        match response_headers {
            Some(h) => match h.get("X-Reqid") {
                Some(v) => Some(v.to_owned()),
                None => None,
            },
            None => None,
        }
    }

    /// How far the request may be retried.
    pub fn kind(&self) -> (k: ErrorKind)
        ensures
            k == self.kind_of(),
    {
        self.kind
    }

    /// Sending the request again is safe.
    pub fn is_retry_safe(&self) -> (b: bool)
        ensures
            b == self.retry_safe(),
    {
        self.is_retry_safe
    }

    /// The method of the request.
    pub fn method(&self) -> (m: Option<Method>)
        ensures
            m == self.method_of(),
    {
        self.method
    }

    /// The request ID.
    pub fn request_id(&self) -> (r: Option<&str>)
        ensures
            match r {
                Some(x) => self.request_id_of() == Some(encode_utf8(x@)),
                None => self.request_id_of() is None,
            },
    {
        match &self.request_id {
            Some(x) => Some(x.as_str()),
            None => None,
        }
    }

    /// The URL of the request.
    pub fn url(&self) -> (u: Option<&str>)
        ensures
            match u {
                Some(x) => self.url_of() == Some(x@),
                None => self.url_of() is None,
            },
    {
        match &self.url {
            Some(x) => Some(x.as_str()),
            None => None,
        }
    }

    /// What caused the error.
    pub fn description(&self) -> (d: &str)
        ensures
            d@ == self.cause_of(),
    {
        self.cause.as_str()
    }
}

} // verus!
