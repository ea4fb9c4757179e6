//! Domain resolution with a time limit: a resolver wraps another one and
//! answers a timeout error where the inner one did not answer in time.
//!
//! Waiting is the caller's part: it runs the inner resolver, waits at most
//! the timeout, and hands what came back (or nothing) to the resolver here.

use crate::endpoint::IpAddr;
use crate::http_error::ErrorKind;
use crate::retrier::ResponseErrorKind;
use crate::text::{ascii_chars, ascii_string, decimal, decimal_string};
use vstd::prelude::*;
use vstd::string::*;

verus! {

/// The addresses that a domain resolves to.
#[derive(Debug, Clone, PartialEq, Eq)]
pub struct ResolveAnswers {
    ip_addrs: Vec<IpAddr>,
}

impl ResolveAnswers {
    /// The addresses.
    pub closed spec fn addrs(&self) -> Seq<IpAddr> {
        self.ip_addrs@
    }

    /// Answers of these addresses.
    pub fn new(ip_addrs: Vec<IpAddr>) -> (a: Self)
        ensures
            a.addrs() == ip_addrs@,
    {
        ResolveAnswers { ip_addrs }
    }

    /// The addresses.
    pub fn ip_addrs(&self) -> (r: &[IpAddr])
        ensures
            r@ == self.addrs(),
    {
        self.ip_addrs.as_slice()
    }
}

/// Why a domain could not be resolved.
#[derive(Debug, Clone, PartialEq, Eq)]
pub struct ResolveError {
    pub kind: ResponseErrorKind,
    pub message: String,
}

/// Resolves domains.
pub trait Resolver {
    /// The addresses of `domain`.
    fn resolve(&self, domain: &str) -> Result<ResolveAnswers, ResolveError>;
}

/// The answer of a lookup of both address families: the IPv4 addresses
/// then the IPv6 ones where both lookups answered, else the one that
/// answered, else the error of the IPv4 lookup.
pub open spec fn both_families(
    v4: Result<Seq<IpAddr>, ResolveError>,
    v6: Result<Seq<IpAddr>, ResolveError>,
) -> Result<Seq<IpAddr>, ResolveError> {
    match (v4, v6) {
        (Ok(a), Ok(b)) => Ok(a + b),
        (Ok(a), Err(_)) => Ok(a),
        (Err(_), Ok(b)) => Ok(b),
        (Err(e), Err(_)) => Err(e),
    }
}

/// The addresses of an answer, or its error.
pub open spec fn answer_view(r: Result<ResolveAnswers, ResolveError>) -> Result<Seq<IpAddr>, ResolveError> {
    match r {
        Ok(a) => Ok(a.addrs()),
        Err(e) => Err(e),
    }
}

/// Joins the answers of the IPv4 and the IPv6 lookups of a domain.
pub fn join_family_answers(
    v4: Result<ResolveAnswers, ResolveError>,
    v6: Result<ResolveAnswers, ResolveError>,
) -> (r: Result<ResolveAnswers, ResolveError>)
    ensures
        answer_view(r) == both_families(answer_view(v4), answer_view(v6)),
{
    match (v4, v6) {
        (Ok(a), Ok(b)) => {
            let mut addrs = a.ip_addrs;
            let mut more = b.ip_addrs;
            addrs.append(&mut more);
            Ok(ResolveAnswers { ip_addrs: addrs })
        },
        (Ok(a), Err(_)) => Ok(a),
        (Err(_), Ok(b)) => Ok(b),
        (Err(e), Err(_)) => Err(e),
    }
}

/// The error of a lookup that the DNS server failed, with what it said.
pub fn dns_server_error(message: String) -> (e: ResolveError)
    ensures
        e.kind == ResponseErrorKind::HTTPError(ErrorKind::DNSServerError),
        e.message@ == message@,
{
    ResolveError { kind: ResponseErrorKind::HTTPError(ErrorKind::DNSServerError), message }
}

/// Joins the IPv4 and the IPv6 lookups of a domain, each the addresses or
/// what the DNS server said when it failed: the addresses of both where
/// both answered, else those of the one that answered, else a DNS server
/// error with what was said to the IPv4 lookup.
pub fn join_lookups(
    v4: Result<ResolveAnswers, String>,
    v6: Result<ResolveAnswers, String>,
) -> (r: Result<ResolveAnswers, ResolveError>)
    ensures
        match (v4, v6) {
            (Ok(a), Ok(b)) => r matches Ok(x) && x.addrs() == a.addrs() + b.addrs(),
            (Ok(a), Err(_)) => r matches Ok(x) && x.addrs() == a.addrs(),
            (Err(_), Ok(b)) => r matches Ok(x) && x.addrs() == b.addrs(),
            (Err(m), Err(_)) => r matches Err(e) && e.kind == ResponseErrorKind::HTTPError(
                ErrorKind::DNSServerError,
            ) && e.message@ == m@,
        },
{
    let v4 = match v4 {
        Ok(a) => Ok(a),
        Err(m) => Err(dns_server_error(m)),
    };
    let v6 = match v6 {
        Ok(a) => Ok(a),
        Err(m) => Err(dns_server_error(m)),
    };
    join_family_answers(v4, v6)
}

/// The time limit of a timeout resolver unless one is given: 5 s.
pub const DEFAULT_RESOLVE_TIMEOUT_MS: u64 = 5000;

/// A resolver that gives up on another one after a time limit.
#[derive(Debug, Clone)]
pub struct TimeoutResolver<R> {
    resolver: R,
    timeout: u64,
}

/// The digit character of `d` (0 to 9).
pub open spec fn digit(d: nat) -> char {
    (48 + d) as char
}

/// The decimal fraction of `r` thousandths (1 to 999), as a duration is
/// written: a point, then the digits without trailing zeros.
pub open spec fn thousandths(r: nat) -> Seq<char> {
    if r % 100 == 0 {
        seq!['.', digit(r / 100)]
    } else if r % 10 == 0 {
        seq!['.', digit(r / 100), digit(r / 10 % 10)]
    } else {
        seq!['.', digit(r / 100), digit(r / 10 % 10), digit(r % 10)]
    }
}

/// A duration of `ms` milliseconds as its `Debug` form writes it: `0ns`,
/// `250ms`, `5s`, `1.5s`.
pub open spec fn millis_debug(ms: nat) -> Seq<char> {
    if ms == 0 {
        "0ns"@
    } else if ms < 1000 {
        ascii_chars(decimal(ms)) + "ms"@
    } else if ms % 1000 == 0 {
        ascii_chars(decimal(ms / 1000)) + "s"@
    } else {
        ascii_chars(decimal(ms / 1000)) + thousandths(ms % 1000) + "s"@
    }
}

/// The message of a timeout after `timeout` milliseconds.
pub open spec fn timeout_message(timeout: nat) -> Seq<char> {
    "Failed to resolve domain in "@ + millis_debug(timeout)
}

/// A duration of `ms` milliseconds as its `Debug` form writes it.
pub fn millis_debug_string(ms: u64) -> (s: String)
    ensures
        s@ == millis_debug(ms as nat),
{
    proof {
        reveal_strlit("0ns");
        reveal_strlit("ms");
        reveal_strlit("s");
    }
    if ms == 0 {
        return "0ns".to_owned();
    }
    if ms < 1000 {
        let mut s = decimal_string(ms);
        s.append("ms");
        return s;
    }
    let mut s = decimal_string(ms / 1000);
    let r = ms % 1000;
    if r != 0 {
        let mut frac: Vec<u8> = Vec::new();
        frac.push(46u8);
        frac.push(48u8 + (r / 100) as u8);
        if r % 100 != 0 {
            frac.push(48u8 + (r / 10 % 10) as u8);
            if r % 10 != 0 {
                frac.push(48u8 + (r % 10) as u8);
            }
        }
        let ghost fb = frac@;
        let f = ascii_string(frac);
        proof {
            assert(ascii_chars(fb) =~= thousandths(r as nat));
        }
        s.append(f.as_str());
    }
    s.append("s");
    s
}

impl<R> TimeoutResolver<R> {
    /// The wrapped resolver.
    pub closed spec fn inner(&self) -> R {
        self.resolver
    }

    /// The time limit, in milliseconds.
    pub closed spec fn limit(&self) -> nat {
        self.timeout as nat
    }

    /// Wraps `resolver` with a limit of `timeout` milliseconds.
    pub fn new(resolver: R, timeout: u64) -> (r: Self)
        ensures
            r.inner() == resolver,
            r.limit() == timeout,
    {
        TimeoutResolver { resolver, timeout }
    }

    /// Wraps `resolver` with the default limit.
    pub fn with_default_timeout(resolver: R) -> (r: Self)
        ensures
            r.inner() == resolver,
            r.limit() == DEFAULT_RESOLVE_TIMEOUT_MS,
    {
        TimeoutResolver { resolver, timeout: DEFAULT_RESOLVE_TIMEOUT_MS }
    }

    /// The wrapped resolver.
    pub fn resolver(&self) -> (r: &R)
        ensures
            *r == self.inner(),
    {
        &self.resolver
    }

    /// The time limit, in milliseconds.
    pub fn timeout(&self) -> (t: u64)
        ensures
            t == self.limit(),
    {
        self.timeout
    }

    /// The answer of a blocking wait, given what the wrapped resolver
    /// answered within the limit (`None` where it did not answer in time):
    /// its answer, else the timeout error of the wait on the channel, whose
    /// message is `timed out waiting on select`.
    pub fn answer(&self, answered: Option<Result<ResolveAnswers, ResolveError>>) -> (r: Result<
        ResolveAnswers,
        ResolveError,
    >)
        ensures
            match answered {
                Some(a) => r == a,
                None => r matches Err(e) && e.kind == ResponseErrorKind::HTTPError(
                    ErrorKind::TimeoutError,
                ) && e.message@ == "timed out waiting on select"@,
            },
    {
        match answered {
            Some(a) => a,
            None => Err(
                ResolveError {
                    kind: ResponseErrorKind::HTTPError(ErrorKind::TimeoutError),
                    message: "timed out waiting on select".to_owned(),
                },
            ),
        }
    }

    /// The answer of an asynchronous wait, given what the wrapped resolver
    /// answered within the limit (`None` where the timer fired first): its
    /// answer, else a timeout error that names the limit.
    pub fn answer_async(&self, answered: Option<Result<ResolveAnswers, ResolveError>>) -> (r: Result<
        ResolveAnswers,
        ResolveError,
    >)
        ensures
            match answered {
                Some(a) => r == a,
                None => r matches Err(e) && e.kind == ResponseErrorKind::HTTPError(
                    ErrorKind::TimeoutError,
                ) && e.message@ == timeout_message(self.limit()),
            },
    {
        match answered {
            Some(a) => a,
            None => {
                let mut message = "Failed to resolve domain in ".to_owned();
                let duration = millis_debug_string(self.timeout);
                message.append(duration.as_str());
                Err(ResolveError { kind: ResponseErrorKind::HTTPError(ErrorKind::TimeoutError), message })
            },
        }
    }
}

} // verus!
