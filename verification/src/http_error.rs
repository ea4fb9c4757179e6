//! Errors of an HTTP exchange: what failed, why, and what is known of the
//! server (address, port, timings).

use crate::endpoint::IpAddr;
use vstd::prelude::*;

verus! {

/// What went wrong in an HTTP exchange.
#[derive(Debug, Copy, Clone, PartialEq, Eq, Structural)]
#[non_exhaustive]
pub enum ErrorKind {
    /// The protocol is not supported.
    ProtocolError,
    /// Invalid request or response.
    InvalidRequestResponse,
    /// Invalid URL.
    InvalidURL,
    /// Invalid header.
    InvalidHeader,
    /// The connection failed.
    ConnectError,
    /// The proxy connection failed.
    ProxyError,
    /// The DNS server could not be reached.
    DNSServerError,
    /// The domain could not be resolved.
    UnknownHostError,
    /// Sending failed.
    SendError,
    /// Receiving failed.
    ReceiveError,
    /// Local I/O failed.
    LocalIOError,
    /// Timed out.
    TimeoutError,
    /// SSL error.
    SSLError,
    /// Too many redirections.
    TooManyRedirect,
    /// Unknown error.
    UnknownError,
    /// Canceled by the user.
    UserCanceled,
}

/// Timings of an exchange, in nanoseconds, where they were measured.
#[derive(Debug, Copy, Clone, PartialEq, Eq, Structural)]
pub struct Metrics {
    pub total_duration: Option<u64>,
    pub name_lookup_duration: Option<u64>,
    pub connect_duration: Option<u64>,
    pub secure_connect_duration: Option<u64>,
    pub redirect_duration: Option<u64>,
    pub transfer_duration: Option<u64>,
}

/// What is known of the server that answered.
#[derive(Debug, Copy, Clone, PartialEq, Eq, Structural)]
pub struct ResponseInfo {
    pub server_ip: Option<IpAddr>,
    pub server_port: Option<u16>,
    pub metrics: Option<Metrics>,
}

/// Nothing known of the server.
pub open spec fn empty_response_info() -> ResponseInfo {
    ResponseInfo { server_ip: None, server_port: None, metrics: None }
}

impl ResponseInfo {
    /// Nothing known.
    pub fn new() -> (r: Self)
        ensures
            r == empty_response_info(),
    {
        ResponseInfo { server_ip: None, server_port: None, metrics: None }
    }
}

/// An error of an HTTP exchange.
#[derive(Debug)]
pub struct Error {
    kind: ErrorKind,
    error: String,
    response_info: ResponseInfo,
}

impl Error {
    pub closed spec fn kind_of(&self) -> ErrorKind {
        self.kind
    }

    pub closed spec fn message_of(&self) -> Seq<char> {
        self.error@
    }

    pub closed spec fn info_of(&self) -> ResponseInfo {
        self.response_info
    }

    /// A builder of an error of `kind` caused by `err`.
    pub fn builder(kind: ErrorKind, err: String) -> (b: ErrorBuilder)
        ensures
            b.inner_of().kind_of() == kind,
            b.inner_of().message_of() == err@,
            b.inner_of().info_of() == empty_response_info(),
    {
        ErrorBuilder::new(kind, err)
    }

    /// What went wrong.
    pub fn kind(&self) -> (k: ErrorKind)
        ensures
            k == self.kind_of(),
    {
        self.kind
    }

    /// The cause.
    pub fn into_inner(self) -> (e: String)
        ensures
            e@ == self.message_of(),
    {
        self.error
    }

    /// The server's address, where known.
    pub fn server_ip(&self) -> (ip: Option<IpAddr>)
        ensures
            ip == self.info_of().server_ip,
    {
        self.response_info.server_ip
    }

    /// The server's address, to change.
    pub fn server_ip_mut(&mut self) -> (ip: &mut Option<IpAddr>)
        ensures
            *ip == old(self).info_of().server_ip,
            final(self).info_of() == (ResponseInfo { server_ip: *final(ip), ..old(self).info_of() }),
            final(self).kind_of() == old(self).kind_of(),
            final(self).message_of() == old(self).message_of(),
    {
        &mut self.response_info.server_ip
    }

    /// The server's port, where known.
    pub fn server_port(&self) -> (p: Option<u16>)
        ensures
            p == self.info_of().server_port,
    {
        self.response_info.server_port
    }

    /// The server's port, to change.
    pub fn server_port_mut(&mut self) -> (p: &mut Option<u16>)
        ensures
            *p == old(self).info_of().server_port,
            final(self).info_of() == (ResponseInfo { server_port: *final(p), ..old(self).info_of() }),
            final(self).kind_of() == old(self).kind_of(),
            final(self).message_of() == old(self).message_of(),
    {
        &mut self.response_info.server_port
    }

    /// The timings, where measured.
    pub fn metrics(&self) -> (m: Option<&Metrics>)
        ensures
            match m {
                Some(x) => self.info_of().metrics == Some(*x),
                None => self.info_of().metrics is None,
            },
    {
        self.response_info.metrics.as_ref()
    }

    /// The timings, to change.
    pub fn metrics_mut(&mut self) -> (m: &mut Option<Metrics>)
        ensures
            *m == old(self).info_of().metrics,
            final(self).info_of() == (ResponseInfo { metrics: *final(m), ..old(self).info_of() }),
            final(self).kind_of() == old(self).kind_of(),
            final(self).message_of() == old(self).message_of(),
    {
        &mut self.response_info.metrics
    }

    /// The description of the error: its cause.
    pub fn to_message(&self) -> (s: String)
        ensures
            s@ == self.message_of(),
    {
        self.error.clone()
    }
}

/// Builds an [`Error`].
#[derive(Debug)]
pub struct ErrorBuilder {
    inner: Error,
}

impl ErrorBuilder {
    pub closed spec fn inner_of(&self) -> Error {
        self.inner
    }

    fn new(kind: ErrorKind, err: String) -> (b: Self)
        ensures
            b.inner_of().kind_of() == kind,
            b.inner_of().message_of() == err@,
            b.inner_of().info_of() == empty_response_info(),
    {
        ErrorBuilder { inner: Error { kind, error: err, response_info: ResponseInfo::new() } }
    }

    /// The error.
    pub fn build(self) -> (e: Error)
        ensures
            e == self.inner_of(),
    {
        self.inner
    }

    /// Sets the server's address.
    pub fn server_ip(self, server_ip: IpAddr) -> (b: Self)
        ensures
            b.inner_of().kind_of() == self.inner_of().kind_of(),
            b.inner_of().message_of() == self.inner_of().message_of(),
            b.inner_of().info_of() == (ResponseInfo {
                server_ip: Some(server_ip),
                ..self.inner_of().info_of()
            }),
    {
        let mut s = self;
        s.inner.response_info.server_ip = Some(server_ip);
        s
    }

    /// Sets the server's port (not zero).
    pub fn server_port(self, server_port: u16) -> (b: Self)
        requires
            server_port != 0,
        ensures
            b.inner_of().kind_of() == self.inner_of().kind_of(),
            b.inner_of().message_of() == self.inner_of().message_of(),
            b.inner_of().info_of() == (ResponseInfo {
                server_port: Some(server_port),
                ..self.inner_of().info_of()
            }),
    {
        let mut s = self;
        s.inner.response_info.server_port = Some(server_port);
        s
    }

    /// Sets the timings.
    pub fn metrics(self, metrics: Metrics) -> (b: Self)
        ensures
            b.inner_of().kind_of() == self.inner_of().kind_of(),
            b.inner_of().message_of() == self.inner_of().message_of(),
            b.inner_of().info_of() == (ResponseInfo {
                metrics: Some(metrics),
                ..self.inner_of().info_of()
            }),
    {
        let mut s = self;
        s.inner.response_info.metrics = Some(metrics);
        s
    }

    /// Sets what the URL tells of the server: its address where the host is
    /// one, and its port, or 80 for `http` and 443 for `https` where the URL
    /// gives none.
    pub fn uri(self, scheme: Option<&str>, host_ip: Option<IpAddr>, port: Option<u16>) -> (b:
        Self)
        ensures
            b.inner_of().kind_of() == self.inner_of().kind_of(),
            b.inner_of().message_of() == self.inner_of().message_of(),
            b.inner_of().info_of().metrics == self.inner_of().info_of().metrics,
            b.inner_of().info_of().server_ip == (match host_ip {
                Some(ip) => Some(ip),
                None => self.inner_of().info_of().server_ip,
            }),
            b.inner_of().info_of().server_port == (match port {
                Some(p) => if p != 0 {
                    Some(p)
                } else {
                    None
                },
                None => match scheme {
                    Some(s) => if s@ == "http"@ {
                        Some(80u16)
                    } else if s@ == "https"@ {
                        Some(443u16)
                    } else {
                        self.inner_of().info_of().server_port
                    },
                    None => self.inner_of().info_of().server_port,
                },
            }),
    {
        let mut s = self;
        if let Some(ip) = host_ip {
            s.inner.response_info.server_ip = Some(ip);
        }
        if let Some(p) = port {
            s.inner.response_info.server_port = if p != 0 {
                Some(p)
            } else {
                None
            };
        } else if let Some(scheme) = scheme {
            if str_eq(scheme, "http") {
                s.inner.response_info.server_port = Some(80);
            } else if str_eq(scheme, "https") {
                s.inner.response_info.server_port = Some(443);
            }
        }
        s
    }
}

/// Compares two strings.
pub fn str_eq(a: &str, b: &str) -> (r: bool)
    ensures
        r == (a@ == b@),
{
    let r = crate::text::bytes_eq(a.as_bytes(), b.as_bytes());
    proof {
        if r {
            vstd::utf8::encode_utf8_decode_utf8(a@);
            vstd::utf8::encode_utf8_decode_utf8(b@);
        }
    }
    r
}

/// An error of another type, with what is known of the server.
pub struct MapError<E> {
    error: E,
    info: ResponseInfo,
}

impl<E> MapError<E> {
    pub closed spec fn error_of(&self) -> E {
        self.error
    }

    pub closed spec fn info_of(&self) -> ResponseInfo {
        self.info
    }

    /// Pairs an error with what is known of the server.
    pub fn new(error: E, info: ResponseInfo) -> (m: Self)
        ensures
            m.error_of() == error,
            m.info_of() == info,
    {
        MapError { error, info }
    }

    /// The error.
    pub fn into_inner(self) -> (e: E)
        ensures
            e == self.error_of(),
    {
        self.error
    }
}

impl MapError<String> {
    /// An HTTP error of `kind` caused by the error, with what is known of the
    /// server.
    pub fn into_response_error(self, kind: ErrorKind) -> (e: Error)
        ensures
            e.kind_of() == kind,
            e.message_of() == self.error_of()@,
            e.info_of() == self.info_of(),
    {
        Error { kind, error: self.error, response_info: self.info }
    }
}

} // verus!
