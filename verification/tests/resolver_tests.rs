use qiniu_sdk::endpoint::IpAddr;
use qiniu_sdk::http_error::ErrorKind;
use qiniu_sdk::resolver::{
    join_family_answers, join_lookups, millis_debug_string, ResolveAnswers, ResolveError, Resolver, TimeoutResolver,
};
use qiniu_sdk::retrier::ResponseErrorKind;

#[derive(Clone, Copy)]
struct FixedResolver;

impl Resolver for FixedResolver {
    fn resolve(&self, _domain: &str) -> Result<ResolveAnswers, ResolveError> {
        Ok(ResolveAnswers::new(vec![IpAddr::V4(192, 168, 1, 1)]))
    }
}

#[test]
fn test_timeout_resolver() {
    let resolver = TimeoutResolver::new(FixedResolver, 2000);
    let answered = resolver.resolver().resolve("fake.domain");
    let answers = resolver.answer(Some(answered)).unwrap();
    assert_eq!(answers.ip_addrs(), &[IpAddr::V4(192, 168, 1, 1)][..]);
    let resolver = TimeoutResolver::new(FixedResolver, 1000);
    let err = resolver.answer(None).unwrap_err();
    assert_eq!(err.kind, ResponseErrorKind::HTTPError(ErrorKind::TimeoutError));
    assert_eq!(err.message, "timed out waiting on select");
    let err = resolver.answer_async(None).unwrap_err();
    assert_eq!(err.kind, ResponseErrorKind::HTTPError(ErrorKind::TimeoutError));
    assert_eq!(err.message, "Failed to resolve domain in 1s");
}

#[test]
fn default_timeout_is_five_seconds() {
    let r = TimeoutResolver::with_default_timeout(FixedResolver);
    assert_eq!(r.timeout(), 5000);
}

#[test]
fn timeout_message_writes_the_duration_as_debug_does() {
    assert_eq!(millis_debug_string(0), "0ns");
    assert_eq!(millis_debug_string(250), "250ms");
    assert_eq!(millis_debug_string(5000), "5s");
    assert_eq!(millis_debug_string(1500), "1.5s");
    assert_eq!(millis_debug_string(1050), "1.05s");
    assert_eq!(millis_debug_string(1005), "1.005s");
    assert_eq!(format!("{:?}", std::time::Duration::from_millis(1050)), "1.05s");
    let err = TimeoutResolver::with_default_timeout(FixedResolver).answer_async(None).unwrap_err();
    assert_eq!(err.message, "Failed to resolve domain in 5s");
}

#[test]
fn both_address_families_are_joined() {
    use_join();
}

fn answers(ips: Vec<IpAddr>) -> Result<ResolveAnswers, ResolveError> {
    Ok(ResolveAnswers::new(ips))
}

fn failure(message: &str) -> Result<ResolveAnswers, ResolveError> {
    Err(ResolveError {
        kind: ResponseErrorKind::HTTPError(ErrorKind::DNSServerError),
        message: message.to_owned(),
    })
}

fn use_join() {
    let v4 = IpAddr::V4(223, 5, 5, 5);
    let v6 = IpAddr::V6(0x2400, 0x3200, 0, 0, 0, 0, 0, 1);
    let both = join_family_answers(answers(vec![v4]), answers(vec![v6])).unwrap();
    assert_eq!(both.ip_addrs(), &[v4, v6][..]);
    let only4 = join_family_answers(answers(vec![v4]), failure("no AAAA")).unwrap();
    assert_eq!(only4.ip_addrs(), &[v4][..]);
    let only6 = join_family_answers(failure("no A"), answers(vec![v6])).unwrap();
    assert_eq!(only6.ip_addrs(), &[v6][..]);
    let err = join_family_answers(failure("first"), failure("second")).unwrap_err();
    assert_eq!(err.message, "first");
}

#[test]
fn join_lookups_gives_dns_server_error_of_the_ipv4_lookup() {
    let v4 = IpAddr::V4(10, 0, 0, 1);
    let v6 = IpAddr::V6(0xfe80, 0, 0, 0, 0, 0, 0, 1);
    let both = join_lookups(
        Ok(ResolveAnswers::new(vec![v4])),
        Ok(ResolveAnswers::new(vec![v6])),
    )
    .unwrap();
    assert_eq!(both.ip_addrs(), &[v4, v6][..]);
    let only4 = join_lookups(Ok(ResolveAnswers::new(vec![v4])), Err("no AAAA".to_owned())).unwrap();
    assert_eq!(only4.ip_addrs(), &[v4][..]);
    let only6 = join_lookups(Err("no A".to_owned()), Ok(ResolveAnswers::new(vec![v6]))).unwrap();
    assert_eq!(only6.ip_addrs(), &[v6][..]);
    let err = join_lookups(Err("first".to_owned()), Err("second".to_owned())).unwrap_err();
    assert_eq!(err.kind, ResponseErrorKind::HTTPError(ErrorKind::DNSServerError));
    assert_eq!(err.message, "first");
}
