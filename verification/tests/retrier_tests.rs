use qiniu_sdk::http_error::ErrorKind;
use qiniu_sdk::retrier::{
    ErrorRetrier, Idempotent, LimitedRetrier, RequestRetrier, RequestRetrierOptions,
    ResponseErrorKind, RetriedStatsInfo, RetryDecision,
};
use qiniu_sdk::signing::Method;

fn opts(idempotent: Idempotent, kind: ResponseErrorKind, retried: RetriedStatsInfo) -> RequestRetrierOptions {
    RequestRetrierOptions::new(idempotent, kind, retried)
}

#[test]
fn test_error_retrier_idempotent() {
    let retrier = ErrorRetrier;
    let receive = ResponseErrorKind::HTTPError(ErrorKind::ReceiveError);
    let result = retrier.retry(
        Method::GET,
        &opts(Idempotent::Default, receive, RetriedStatsInfo::new()),
    );
    assert_eq!(result.decision(), RetryDecision::RetryRequest);
    let result = retrier.retry(
        Method::GET,
        &opts(Idempotent::Never, receive, RetriedStatsInfo::new()),
    );
    assert_eq!(result.decision(), RetryDecision::DontRetry);
    let result = retrier.retry(
        Method::POST,
        &opts(Idempotent::Default, receive, RetriedStatsInfo::new()),
    );
    assert_eq!(result.decision(), RetryDecision::DontRetry);
    let result = retrier.retry(
        Method::POST,
        &opts(Idempotent::Always, receive, RetriedStatsInfo::new()),
    );
    assert_eq!(result.decision(), RetryDecision::RetryRequest);
    let result = retrier.retry(
        Method::POST,
        &opts(
            Idempotent::Always,
            ResponseErrorKind::HTTPError(ErrorKind::InvalidURL),
            RetriedStatsInfo::new(),
        ),
    );
    assert_eq!(result.decision(), RetryDecision::TryNextServer);
}

#[test]
fn test_error_retrier_retries() {
    let retrier = ErrorRetrier;
    let mut retried = RetriedStatsInfo::new();
    retried.increase();
    retried.increase();
    let receive = ResponseErrorKind::HTTPError(ErrorKind::ReceiveError);
    let result = retrier.retry(Method::GET, &opts(Idempotent::Default, receive, retried));
    assert_eq!(result.decision(), RetryDecision::RetryRequest);
    retried.switch_endpoint();
    let result = retrier.retry(Method::GET, &opts(Idempotent::Default, receive, retried));
    assert_eq!(result.decision(), RetryDecision::RetryRequest);
}

#[test]
fn test_limited_retrier_retries() {
    let retrier = LimitedRetrier::new(ErrorRetrier, 2);
    let mut retried = RetriedStatsInfo::new();
    retried.increase();
    retried.increase();
    let receive = ResponseErrorKind::HTTPError(ErrorKind::ReceiveError);
    let result = retrier.retry(Method::GET, &opts(Idempotent::Default, receive, retried));
    assert_eq!(result.decision(), RetryDecision::TryNextServer);
    retried.switch_endpoint();
    let result = retrier.retry(Method::GET, &opts(Idempotent::Default, receive, retried));
    assert_eq!(result.decision(), RetryDecision::RetryRequest);
}

#[test]
fn status_codes_decide_by_table() {
    let retrier = ErrorRetrier;
    let decide = |code: u16| {
        retrier
            .retry(
                Method::GET,
                &opts(
                    Idempotent::Default,
                    ResponseErrorKind::StatusCodeError(code),
                    RetriedStatsInfo::new(),
                ),
            )
            .decision()
    };
    for code in [400u16, 401, 404, 500, 501, 579, 599, 608, 612, 614, 616, 618, 630, 631, 632, 640, 701] {
        assert_eq!(decide(code), RetryDecision::DontRetry, "code {}", code);
    }
    assert_eq!(decide(509), RetryDecision::Throttled);
    assert_eq!(decide(573), RetryDecision::Throttled);
    for code in [502u16, 503, 504, 571, 600, 700, 999] {
        assert_eq!(decide(code), RetryDecision::TryNextServer, "code {}", code);
    }
}

#[test]
fn other_errors_decide_by_kind() {
    let retrier = ErrorRetrier;
    let decide = |kind: ResponseErrorKind, m: Method| {
        retrier
            .retry(m, &opts(Idempotent::Default, kind, RetriedStatsInfo::new()))
            .decision()
    };
    assert_eq!(decide(ResponseErrorKind::HTTPError(ErrorKind::SSLError), Method::GET), RetryDecision::TryAlternativeEndpoints);
    assert_eq!(decide(ResponseErrorKind::HTTPError(ErrorKind::UserCanceled), Method::GET), RetryDecision::DontRetry);
    assert_eq!(decide(ResponseErrorKind::HTTPError(ErrorKind::InvalidHeader), Method::GET), RetryDecision::RetryRequest);
    assert_eq!(decide(ResponseErrorKind::UnexpectedStatusCode(200), Method::GET), RetryDecision::DontRetry);
    assert_eq!(decide(ResponseErrorKind::ParseResponseError, Method::PUT), RetryDecision::RetryRequest);
    assert_eq!(decide(ResponseErrorKind::UnexpectedEof, Method::PATCH), RetryDecision::DontRetry);
    assert_eq!(decide(ResponseErrorKind::MaliciousResponse, Method::POST), RetryDecision::RetryRequest);
    assert_eq!(decide(ResponseErrorKind::NoTry, Method::GET), RetryDecision::DontRetry);
}

#[test]
fn limited_retrier_throttles_until_limit() {
    let retrier = LimitedRetrier::new(ErrorRetrier, 1);
    let mut retried = RetriedStatsInfo::new();
    let throttled = ResponseErrorKind::StatusCodeError(509);
    assert_eq!(
        retrier.retry(Method::GET, &opts(Idempotent::Default, throttled, retried)).decision(),
        RetryDecision::Throttled
    );
    retried.increase();
    assert_eq!(
        retrier.retry(Method::GET, &opts(Idempotent::Default, throttled, retried)).decision(),
        RetryDecision::TryNextServer
    );
    assert_eq!(retried.retried_total(), 1);
    assert_eq!(retried.retried_on_current_endpoint(), 1);
    retried.switch_endpoint();
    assert_eq!(retried.retried_on_current_endpoint(), 0);
    assert_eq!(retried.abandoned_endpoints(), 1);
    assert_eq!(
        retrier.retry(Method::GET, &opts(Idempotent::Default, ResponseErrorKind::NoTry, retried)).decision(),
        RetryDecision::DontRetry
    );
}
