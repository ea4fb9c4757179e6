//! Retry decisions: what a client does after a failed request, by the kind
//! of failure, the idempotency of the request and how often it was retried.

use crate::http_error::ErrorKind;
use crate::signing::Method;
use vstd::prelude::*;

verus! {

/// What a client does next after a failed request.
#[derive(Debug, Copy, Clone, PartialEq, Eq, Structural)]
#[non_exhaustive]
pub enum RetryDecision {
    /// Give up.
    DontRetry,
    /// Try the next server.
    TryNextServer,
    /// Try the alternative endpoints.
    TryAlternativeEndpoints,
    /// Send the request again to the same server.
    RetryRequest,
    /// Send the request again to the same server, after backing off.
    Throttled,
}

/// Whether a request may be sent twice.
#[derive(Debug, Copy, Clone, PartialEq, Eq, Structural)]
pub enum Idempotent {
    /// Always.
    Always,
    /// As its method says.
    Default,
    /// Never.
    Never,
}

/// Why a request failed.
#[derive(Debug, Copy, Clone, PartialEq, Eq, Structural)]
#[non_exhaustive]
pub enum ResponseErrorKind {
    /// The HTTP exchange itself failed.
    HTTPError(ErrorKind),
    /// The server answered with a status code that was not expected.
    UnexpectedStatusCode(u16),
    /// The server answered with an error status code (400 or more).
    StatusCodeError(u16),
    /// The response could not be parsed.
    ParseResponseError,
    /// The response ended too early.
    UnexpectedEof,
    /// The response was not one that the server sends.
    MaliciousResponse,
    /// The request was never tried.
    NoTry,
}

/// How often a request was retried.
#[derive(Debug, Copy, Clone, PartialEq, Eq, Structural)]
pub struct RetriedStatsInfo {
    retried_total: usize,
    retried_on_current_endpoint: usize,
    abandoned_endpoints: usize,
}

impl RetriedStatsInfo {
    /// Retries in all.
    pub closed spec fn total(self) -> nat {
        self.retried_total as nat
    }

    /// Retries on the endpoint in use.
    pub closed spec fn on_current_endpoint(self) -> nat {
        self.retried_on_current_endpoint as nat
    }

    /// Endpoints given up.
    pub closed spec fn abandoned(self) -> nat {
        self.abandoned_endpoints as nat
    }

    /// No retry yet.
    pub fn new() -> (r: Self)
        ensures
            r.total() == 0,
            r.on_current_endpoint() == 0,
            r.abandoned() == 0,
    {
        RetriedStatsInfo { retried_total: 0, retried_on_current_endpoint: 0, abandoned_endpoints: 0 }
    }

    /// Counts one more retry on the endpoint in use.
    pub fn increase(&mut self)
        requires
            old(self).total() < usize::MAX,
            old(self).on_current_endpoint() < usize::MAX,
        ensures
            final(self).total() == old(self).total() + 1,
            final(self).on_current_endpoint() == old(self).on_current_endpoint() + 1,
            final(self).abandoned() == old(self).abandoned(),
    {
        self.retried_total = self.retried_total + 1;
        self.retried_on_current_endpoint = self.retried_on_current_endpoint + 1;
    }

    /// Moves to the next endpoint: its count of retries starts again at 0.
    pub fn switch_endpoint(&mut self)
        requires
            old(self).abandoned() < usize::MAX,
        ensures
            final(self).total() == old(self).total(),
            final(self).on_current_endpoint() == 0,
            final(self).abandoned() == old(self).abandoned() + 1,
    {
        self.retried_on_current_endpoint = 0;
        self.abandoned_endpoints = self.abandoned_endpoints + 1;
    }

    /// Retries in all.
    pub fn retried_total(&self) -> (n: usize)
        ensures
            n == self.total(),
    {
        self.retried_total
    }

    /// Retries on the endpoint in use.
    pub fn retried_on_current_endpoint(&self) -> (n: usize)
        ensures
            n == self.on_current_endpoint(),
    {
        self.retried_on_current_endpoint
    }

    /// Endpoints given up.
    pub fn abandoned_endpoints(&self) -> (n: usize)
        ensures
            n == self.abandoned(),
    {
        self.abandoned_endpoints
    }
}

/// What a retrier is told of a failed request.
#[derive(Debug, Copy, Clone, PartialEq, Eq, Structural)]
pub struct RequestRetrierOptions {
    pub idempotent: Idempotent,
    pub response_error_kind: ResponseErrorKind,
    pub retried: RetriedStatsInfo,
}

impl RequestRetrierOptions {
    /// The options of one decision.
    pub fn new(idempotent: Idempotent, response_error_kind: ResponseErrorKind, retried: RetriedStatsInfo) -> (o: Self)
        ensures
            o == (RequestRetrierOptions { idempotent, response_error_kind, retried }),
    {
        RequestRetrierOptions { idempotent, response_error_kind, retried }
    }

    /// A status code error carries a status code of 400 or more.
    pub open spec fn is_well_formed(self) -> bool {
        !(self.response_error_kind matches ResponseErrorKind::StatusCodeError(c) && c < 400)
    }
}

/// The decision of a retrier.
#[derive(Debug, Copy, Clone, PartialEq, Eq, Structural)]
pub struct RetryResult {
    decision: RetryDecision,
}

impl RetryResult {
    /// The decision.
    pub closed spec fn decision_of(self) -> RetryDecision {
        self.decision
    }

    /// A result of a decision.
    pub fn new(decision: RetryDecision) -> (r: Self)
        ensures
            r.decision_of() == decision,
    {
        RetryResult { decision }
    }

    /// The decision.
    pub fn decision(&self) -> (d: RetryDecision)
        ensures
            d == self.decision_of(),
    {
        self.decision
    }
}

/// A request may be sent twice.
pub open spec fn is_idempotent(method: Method, idempotent: Idempotent) -> bool {
    match idempotent {
        Idempotent::Always => true,
        Idempotent::Default => !(method == Method::POST || method == Method::CONNECT || method
            == Method::PATCH),
        Idempotent::Never => false,
    }
}

/// Status codes on which trying again cannot help.
pub open spec fn is_final_status_code(code: u16) -> bool {
    (400 <= code <= 501) || code == 579 || code == 599 || code == 608 || code == 612 || code == 614
        || code == 616 || code == 618 || code == 630 || code == 631 || code == 632 || code == 640
        || code == 701
}

/// The decision on an error status code (400 or more).
pub open spec fn status_code_decision(code: u16) -> RetryDecision {
    if is_final_status_code(code) {
        RetryDecision::DontRetry
    } else if code == 509 || code == 573 {
        RetryDecision::Throttled
    } else {
        RetryDecision::TryNextServer
    }
}

/// The decision on a failed HTTP exchange; `idempotent` says whether the
/// request may be sent twice.
pub open spec fn http_error_decision(kind: ErrorKind, idempotent: bool) -> RetryDecision {
    match kind {
        ErrorKind::ProtocolError => RetryDecision::RetryRequest,
        ErrorKind::InvalidURL => RetryDecision::TryNextServer,
        ErrorKind::ConnectError => RetryDecision::TryNextServer,
        ErrorKind::ProxyError => RetryDecision::RetryRequest,
        ErrorKind::DNSServerError => RetryDecision::RetryRequest,
        ErrorKind::UnknownHostError => RetryDecision::TryNextServer,
        ErrorKind::SendError => RetryDecision::RetryRequest,
        ErrorKind::ReceiveError | ErrorKind::UnknownError => if idempotent {
            RetryDecision::RetryRequest
        } else {
            RetryDecision::DontRetry
        },
        ErrorKind::LocalIOError => RetryDecision::DontRetry,
        ErrorKind::TimeoutError => RetryDecision::RetryRequest,
        ErrorKind::SSLError => RetryDecision::TryAlternativeEndpoints,
        ErrorKind::TooManyRedirect => RetryDecision::DontRetry,
        ErrorKind::UserCanceled => RetryDecision::DontRetry,
        _ => RetryDecision::RetryRequest,
    }
}

/// The decision of the error retrier.
pub open spec fn error_decision(method: Method, opts: RequestRetrierOptions) -> RetryDecision {
    let idempotent = is_idempotent(method, opts.idempotent);
    match opts.response_error_kind {
        ResponseErrorKind::HTTPError(k) => http_error_decision(k, idempotent),
        ResponseErrorKind::UnexpectedStatusCode(_) => RetryDecision::DontRetry,
        ResponseErrorKind::StatusCodeError(c) => status_code_decision(c),
        ResponseErrorKind::ParseResponseError | ResponseErrorKind::UnexpectedEof => if idempotent {
            RetryDecision::RetryRequest
        } else {
            RetryDecision::DontRetry
        },
        ResponseErrorKind::MaliciousResponse => RetryDecision::RetryRequest,
        ResponseErrorKind::NoTry => RetryDecision::DontRetry,
    }
}

/// The decision of a limited retrier, given the decision of the retrier it
/// wraps: once `retries` retries were made on the endpoint in use, a retry
/// there becomes a move to the next server.
pub open spec fn limited_decision(inner: RetryDecision, retried_on_current_endpoint: nat, retries: nat) -> RetryDecision {
    if (inner == RetryDecision::RetryRequest || inner == RetryDecision::Throttled)
        && retried_on_current_endpoint >= retries {
        RetryDecision::TryNextServer
    } else {
        inner
    }
}

/// Decides what to do after a failed request.
pub trait RequestRetrier {
    /// The decision for a request of `method` with `opts`.
    spec fn decision_for(&self, method: Method, opts: RequestRetrierOptions) -> RetryDecision;

    /// Decides what to do after a request of `method` failed as `opts` says.
    fn retry(&self, method: Method, opts: &RequestRetrierOptions) -> (r: RetryResult)
        requires
            opts.is_well_formed(),
        ensures
            r.decision_of() == self.decision_for(method, *opts),
    ;
}

/// Decides by the kind of the error and the idempotency of the request.
#[derive(Copy, Clone, Debug, Default)]
pub struct ErrorRetrier;

/// The request may be sent twice.
fn request_is_idempotent(method: Method, idempotent: Idempotent) -> (r: bool)
    ensures
        r == is_idempotent(method, idempotent),
{
    match idempotent {
        Idempotent::Always => true,
        Idempotent::Default => method.is_idempotent(),
        Idempotent::Never => false,
    }
}

/// Whether trying again cannot help on an error status code.
fn status_code_is_final(code: u16) -> (r: bool)
    ensures
        r == is_final_status_code(code),
{
    (400 <= code && code <= 501) || code == 579 || code == 599 || code == 608 || code == 612 || code
        == 614 || code == 616 || code == 618 || code == 630 || code == 631 || code == 632 || code
        == 640 || code == 701
}

impl RequestRetrier for ErrorRetrier {
    open spec fn decision_for(&self, method: Method, opts: RequestRetrierOptions) -> RetryDecision {
        error_decision(method, opts)
    }

    fn retry(&self, method: Method, opts: &RequestRetrierOptions) -> (r: RetryResult) {
        let decision = match opts.response_error_kind {
            ResponseErrorKind::HTTPError(k) => match k {
                ErrorKind::ProtocolError => RetryDecision::RetryRequest,
                ErrorKind::InvalidURL => RetryDecision::TryNextServer,
                ErrorKind::ConnectError => RetryDecision::TryNextServer,
                ErrorKind::ProxyError => RetryDecision::RetryRequest,
                ErrorKind::DNSServerError => RetryDecision::RetryRequest,
                ErrorKind::UnknownHostError => RetryDecision::TryNextServer,
                ErrorKind::SendError => RetryDecision::RetryRequest,
                ErrorKind::ReceiveError | ErrorKind::UnknownError => {
                    if request_is_idempotent(method, opts.idempotent) {
                        RetryDecision::RetryRequest
                    } else {
                        RetryDecision::DontRetry
                    }
                },
                ErrorKind::LocalIOError => RetryDecision::DontRetry,
                ErrorKind::TimeoutError => RetryDecision::RetryRequest,
                ErrorKind::SSLError => RetryDecision::TryAlternativeEndpoints,
                ErrorKind::TooManyRedirect => RetryDecision::DontRetry,
                ErrorKind::UserCanceled => RetryDecision::DontRetry,
                _ => RetryDecision::RetryRequest,
            },
            ResponseErrorKind::UnexpectedStatusCode(_) => RetryDecision::DontRetry,
            ResponseErrorKind::StatusCodeError(code) => {
                if status_code_is_final(code) {
                    RetryDecision::DontRetry
                } else if code == 509 || code == 573 {
                    RetryDecision::Throttled
                } else {
                    RetryDecision::TryNextServer
                }
            },
            ResponseErrorKind::ParseResponseError | ResponseErrorKind::UnexpectedEof => {
                if request_is_idempotent(method, opts.idempotent) {
                    RetryDecision::RetryRequest
                } else {
                    RetryDecision::DontRetry
                }
            },
            ResponseErrorKind::MaliciousResponse => RetryDecision::RetryRequest,
            ResponseErrorKind::NoTry => RetryDecision::DontRetry,
        };
        RetryResult::new(decision)
    }
}

/// Limits the retries that the wrapped retrier asks for on one endpoint.
#[derive(Clone, Debug)]
pub struct LimitedRetrier<R> {
    retrier: R,
    retries: usize,
}

impl<R> LimitedRetrier<R> {
    /// The wrapped retrier.
    pub closed spec fn inner(self) -> R {
        self.retrier
    }

    /// The retries allowed on one endpoint.
    pub closed spec fn limit(self) -> nat {
        self.retries as nat
    }

    /// Wraps `retrier`, allowing `retries` retries on one endpoint.
    pub fn new(retrier: R, retries: usize) -> (r: Self)
        ensures
            r.inner() == retrier,
            r.limit() == retries,
    {
        LimitedRetrier { retrier, retries }
    }

    /// The wrapped decision, limited.
    pub fn limited(&self, decision: RetryDecision, retried: &RetriedStatsInfo) -> (d: RetryDecision)
        ensures
            d == limited_decision(decision, retried.on_current_endpoint(), self.limit()),
    {
        match decision {
            RetryDecision::RetryRequest | RetryDecision::Throttled => {
                if retried.retried_on_current_endpoint() >= self.retries {
                    RetryDecision::TryNextServer
                } else {
                    decision
                }
            },
            _ => decision,
        }
    }
}

impl<R: RequestRetrier> RequestRetrier for LimitedRetrier<R> {
    open spec fn decision_for(&self, method: Method, opts: RequestRetrierOptions) -> RetryDecision {
        limited_decision(
            self.inner().decision_for(method, opts),
            opts.retried.on_current_endpoint(),
            self.limit(),
        )
    }

    fn retry(&self, method: Method, opts: &RequestRetrierOptions) -> (r: RetryResult) {
        let inner = self.retrier.retry(method, opts);
        RetryResult::new(self.limited(inner.decision(), &opts.retried))
    }
}

/// Once a limited retrier has seen its limit of retries on the endpoint in
/// use, it never asks to send the request there again; below the limit it
/// decides as the retrier it wraps.
pub proof fn limited_retrier_stops_at_limit<R: RequestRetrier>(
    retrier: LimitedRetrier<R>,
    method: Method,
    opts: RequestRetrierOptions,
)
    ensures
        opts.retried.on_current_endpoint() >= retrier.limit() ==> {
            let d = retrier.decision_for(method, opts);
            d != RetryDecision::RetryRequest && d != RetryDecision::Throttled
        },
        opts.retried.on_current_endpoint() < retrier.limit() ==> retrier.decision_for(method, opts)
            == retrier.inner().decision_for(method, opts),
{
}

/// A limited retrier only changes a decision to retry in place, and only
/// into a move to the next server.
pub proof fn limited_retrier_changes_only_retries<R: RequestRetrier>(
    retrier: LimitedRetrier<R>,
    method: Method,
    opts: RequestRetrierOptions,
)
    ensures
        ({
            let inner = retrier.inner().decision_for(method, opts);
            let d = retrier.decision_for(method, opts);
            d == inner || ((inner == RetryDecision::RetryRequest || inner == RetryDecision::Throttled)
                && d == RetryDecision::TryNextServer)
        }),
{
}

/// The error retrier never retries, nor moves on, after the request was
/// cancelled by its user, a local I/O error, too many redirections or a
/// response that no retry can change.
pub proof fn error_retrier_gives_up_on_final_errors(method: Method, opts: RequestRetrierOptions)
    requires
        opts.response_error_kind == ResponseErrorKind::HTTPError(ErrorKind::UserCanceled)
            || opts.response_error_kind == ResponseErrorKind::HTTPError(ErrorKind::LocalIOError)
            || opts.response_error_kind == ResponseErrorKind::HTTPError(ErrorKind::TooManyRedirect)
            || opts.response_error_kind == ResponseErrorKind::NoTry
            || opts.response_error_kind matches ResponseErrorKind::UnexpectedStatusCode(_)
            || (opts.response_error_kind matches ResponseErrorKind::StatusCodeError(c)
            && is_final_status_code(c)),
    ensures
        error_decision(method, opts) == RetryDecision::DontRetry,
{
}

/// A request that may not be sent twice is never sent again after it may
/// have reached the server (a receive error, an unknown error, an
/// unparsable or cut response).
pub proof fn error_retrier_never_resends_non_idempotent(method: Method, opts: RequestRetrierOptions)
    requires
        !is_idempotent(method, opts.idempotent),
        opts.response_error_kind == ResponseErrorKind::HTTPError(ErrorKind::ReceiveError)
            || opts.response_error_kind == ResponseErrorKind::HTTPError(ErrorKind::UnknownError)
            || opts.response_error_kind == ResponseErrorKind::ParseResponseError
            || opts.response_error_kind == ResponseErrorKind::UnexpectedEof,
    ensures
        error_decision(method, opts) == RetryDecision::DontRetry,
{
}

/// After a failure to reach the server (no connection, a host that could
/// not be resolved, a URL that cannot be used), the error retrier moves on
/// to the next server, whatever the method and the idempotency setting:
/// it neither gives up nor sends the request to that server again.
pub proof fn error_retrier_moves_on_after_connection_failures(
    method: Method,
    opts: RequestRetrierOptions,
)
    requires
        opts.response_error_kind == ResponseErrorKind::HTTPError(ErrorKind::ConnectError)
            || opts.response_error_kind == ResponseErrorKind::HTTPError(ErrorKind::UnknownHostError)
            || opts.response_error_kind == ResponseErrorKind::HTTPError(ErrorKind::InvalidURL),
    ensures
        ErrorRetrier.decision_for(method, opts) == RetryDecision::TryNextServer,
{
}

/// After a failure that sending again may mend (protocol, request or
/// header trouble, a proxy or DNS server failure, a send failure, a
/// timeout, or a response that the server does not send), the error
/// retrier sends the request to the same server again, whatever the
/// method and the idempotency setting.
pub proof fn error_retrier_resends_after_passing_failures(method: Method, opts: RequestRetrierOptions)
    requires
        opts.response_error_kind == ResponseErrorKind::HTTPError(ErrorKind::ProtocolError)
            || opts.response_error_kind == ResponseErrorKind::HTTPError(
            ErrorKind::InvalidRequestResponse,
        ) || opts.response_error_kind == ResponseErrorKind::HTTPError(ErrorKind::InvalidHeader)
            || opts.response_error_kind == ResponseErrorKind::HTTPError(ErrorKind::ProxyError)
            || opts.response_error_kind == ResponseErrorKind::HTTPError(ErrorKind::DNSServerError)
            || opts.response_error_kind == ResponseErrorKind::HTTPError(ErrorKind::SendError)
            || opts.response_error_kind == ResponseErrorKind::HTTPError(ErrorKind::TimeoutError)
            || opts.response_error_kind == ResponseErrorKind::MaliciousResponse,
    ensures
        ErrorRetrier.decision_for(method, opts) == RetryDecision::RetryRequest,
{
}

/// After an SSL error the error retrier tries the alternative endpoints,
/// whatever the method and the idempotency setting.
pub proof fn error_retrier_tries_alternatives_after_ssl_errors(method: Method, opts: RequestRetrierOptions)
    requires
        opts.response_error_kind == ResponseErrorKind::HTTPError(ErrorKind::SSLError),
    ensures
        ErrorRetrier.decision_for(method, opts) == RetryDecision::TryAlternativeEndpoints,
{
}

/// After the request was cancelled by its user, a local I/O error, too
/// many redirections, a status code that was not expected, or a request
/// that was never tried, the error retrier gives up, whatever the method
/// and the idempotency setting.
pub proof fn error_retrier_gives_up_after_hopeless_failures(method: Method, opts: RequestRetrierOptions)
    requires
        opts.response_error_kind == ResponseErrorKind::HTTPError(ErrorKind::UserCanceled)
            || opts.response_error_kind == ResponseErrorKind::HTTPError(ErrorKind::LocalIOError)
            || opts.response_error_kind == ResponseErrorKind::HTTPError(ErrorKind::TooManyRedirect)
            || opts.response_error_kind == ResponseErrorKind::NoTry
            || opts.response_error_kind matches ResponseErrorKind::UnexpectedStatusCode(_),
    ensures
        ErrorRetrier.decision_for(method, opts) == RetryDecision::DontRetry,
{
}

/// On an error status code the error retrier gives up where the code says
/// the request itself is wrong (400 to 501, and 579, 599, 608, 612, 614,
/// 616, 618, 630, 631, 632, 640 and 701), backs off and sends again on 509
/// and 573, and moves on to the next server on every other code.
pub proof fn error_retrier_decides_by_status_code(method: Method, opts: RequestRetrierOptions, code: u16)
    requires
        opts.response_error_kind == ResponseErrorKind::StatusCodeError(code),
        code >= 400,
    ensures
        ((400 <= code <= 501) || code == 579 || code == 599 || code == 608 || code == 612 || code
            == 614 || code == 616 || code == 618 || code == 630 || code == 631 || code == 632
            || code == 640 || code == 701) ==> ErrorRetrier.decision_for(method, opts)
            == RetryDecision::DontRetry,
        (code == 509 || code == 573) ==> ErrorRetrier.decision_for(method, opts)
            == RetryDecision::Throttled,
        !((400 <= code <= 501) || code == 509 || code == 573 || code == 579 || code == 599 || code
            == 608 || code == 612 || code == 614 || code == 616 || code == 618 || code == 630
            || code == 631 || code == 632 || code == 640 || code == 701) ==> ErrorRetrier.decision_for(
            method,
            opts,
        ) == RetryDecision::TryNextServer,
{
}

/// After a failure that may have come when the server had the request (a
/// receive error, an unknown error, a response that could not be parsed
/// or that ended too early), the error retrier sends the request again
/// where it may be sent twice (always, or by default for every method but
/// `POST`, `CONNECT` and `PATCH`), and gives up otherwise.
pub proof fn error_retrier_resends_only_what_may_be_sent_twice(
    method: Method,
    opts: RequestRetrierOptions,
)
    requires
        opts.response_error_kind == ResponseErrorKind::HTTPError(ErrorKind::ReceiveError)
            || opts.response_error_kind == ResponseErrorKind::HTTPError(ErrorKind::UnknownError)
            || opts.response_error_kind == ResponseErrorKind::ParseResponseError
            || opts.response_error_kind == ResponseErrorKind::UnexpectedEof,
    ensures
        opts.idempotent == Idempotent::Always ==> ErrorRetrier.decision_for(method, opts)
            == RetryDecision::RetryRequest,
        opts.idempotent == Idempotent::Never ==> ErrorRetrier.decision_for(method, opts)
            == RetryDecision::DontRetry,
        opts.idempotent == Idempotent::Default && (method == Method::POST || method
            == Method::CONNECT || method == Method::PATCH) ==> ErrorRetrier.decision_for(method, opts)
            == RetryDecision::DontRetry,
        opts.idempotent == Idempotent::Default && (method == Method::GET || method == Method::PUT
            || method == Method::DELETE || method == Method::HEAD || method == Method::OPTIONS
            || method == Method::TRACE) ==> ErrorRetrier.decision_for(method, opts)
            == RetryDecision::RetryRequest,
{
}

} // verus!
