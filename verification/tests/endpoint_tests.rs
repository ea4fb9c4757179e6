use qiniu_sdk::endpoint::{
    DomainWithPort, DomainWithPortParseError, Endpoint, EndpointParseError, IpAddr, IpAddrWithPort,
};

/// What the standard library reads of `s` as an address with port, for the
/// inputs of these tests.
fn std_ip_with_port(s: &str) -> Option<IpAddrWithPort> {
    match s {
        "127.0.0.1:8080" => Some(IpAddrWithPort::new(IpAddr::V4(127, 0, 0, 1), Some(8080))),
        "fe80::e31c:b4e6:5919:728f" => Some(IpAddrWithPort::new(
            IpAddr::V6(0xfe80, 0, 0, 0, 0xe31c, 0xb4e6, 0x5919, 0x728f),
            None,
        )),
        _ => None,
    }
}

fn parse_endpoint(s: &str) -> Result<Endpoint, EndpointParseError> {
    Endpoint::parse_with_ip(s, std_ip_with_port(s))
}

#[test]
fn test_from_str_to_domain_with_port() {
    let parse = DomainWithPort::from_str;
    assert_eq!(parse("").unwrap_err(), DomainWithPortParseError::EmptyHost);
    assert_eq!(parse("/").unwrap_err(), DomainWithPortParseError::EmptyHost);
    assert_eq!(parse(":").unwrap_err(), DomainWithPortParseError::EmptyHost);
    assert_eq!(parse(":8080").unwrap_err(), DomainWithPortParseError::EmptyHost);
    assert_eq!(
        parse("127.0.0.1:8080").unwrap_err(),
        DomainWithPortParseError::InvalidDomainCharacter
    );
    assert_eq!(
        parse("[127.0.0.1]:8080").unwrap_err(),
        DomainWithPortParseError::InvalidDomainCharacter
    );
    assert_eq!(
        parse("8080:8080").unwrap_err(),
        DomainWithPortParseError::InvalidDomainCharacter
    );
    assert_eq!(parse("8080").unwrap_err(), DomainWithPortParseError::InvalidDomainCharacter);
    assert_eq!(parse("8080:").unwrap_err(), DomainWithPortParseError::InvalidDomainCharacter);
    assert_eq!(parse("domain:").unwrap_err(), DomainWithPortParseError::InvalidDomainCharacter);
    assert_eq!(
        parse("domain:8080").unwrap(),
        DomainWithPort::new("domain".to_owned(), Some(8080))
    );
    assert_eq!(
        parse("domain:8080/").unwrap_err(),
        DomainWithPortParseError::InvalidDomainCharacter
    );
    assert_eq!(parse("domain:65536").unwrap_err(), DomainWithPortParseError::InvalidPort);
    assert_eq!(
        parse("七牛云:65535").unwrap_err(),
        DomainWithPortParseError::InvalidDomainCharacter
    );
}

#[test]
fn test_from_str_to_endpoint() {
    assert_eq!(parse_endpoint("").unwrap_err(), EndpointParseError::EmptyHost);
    assert_eq!(parse_endpoint("/").unwrap_err(), EndpointParseError::EmptyHost);
    assert_eq!(parse_endpoint(":").unwrap_err(), EndpointParseError::EmptyHost);
    assert_eq!(parse_endpoint(":8080").unwrap_err(), EndpointParseError::EmptyHost);
    assert_eq!(
        parse_endpoint("127.0.0.1:8080").unwrap(),
        Endpoint::IpAddrWithPort(IpAddrWithPort::new(IpAddr::V4(127, 0, 0, 1), Some(8080)))
    );
    assert_eq!(
        parse_endpoint("[127.0.0.1]:8080").unwrap_err(),
        EndpointParseError::InvalidDomainCharacter
    );
    assert_eq!(
        parse_endpoint("8080:8080").unwrap_err(),
        EndpointParseError::InvalidDomainCharacter
    );
    assert_eq!(parse_endpoint("8080").unwrap_err(), EndpointParseError::InvalidDomainCharacter);
    assert_eq!(parse_endpoint("8080:").unwrap_err(), EndpointParseError::InvalidDomainCharacter);
    assert_eq!(
        parse_endpoint("domain:").unwrap_err(),
        EndpointParseError::InvalidDomainCharacter
    );
    assert_eq!(
        parse_endpoint("domain:8080").unwrap(),
        Endpoint::DomainWithPort(DomainWithPort::new("domain".to_owned(), Some(8080)))
    );
    assert_eq!(
        parse_endpoint("domain:8080/").unwrap_err(),
        EndpointParseError::InvalidDomainCharacter
    );
    assert_eq!(parse_endpoint("domain:65536").unwrap_err(), EndpointParseError::InvalidPort);
    assert_eq!(
        parse_endpoint("七牛云:65535").unwrap_err(),
        EndpointParseError::InvalidDomainCharacter
    );
}

#[test]
fn domain_without_port_parses_to_itself() {
    let d = DomainWithPort::from_str("upload.qiniup.com").unwrap();
    assert_eq!(d.domain(), "upload.qiniup.com");
    assert_eq!(d.port(), None);
    assert_eq!(d.to_text(), "upload.qiniup.com");
}

#[test]
fn domain_with_port_zero_has_no_port() {
    let d = DomainWithPort::from_str("domain:0").unwrap();
    assert_eq!(d.port(), None);
}

#[test]
fn endpoint_constructors_drop_port_zero() {
    let e = Endpoint::new_from_domain_with_port("a.com".to_owned(), 0);
    assert_eq!(e.port(), None);
    assert_eq!(e.domain(), Some("a.com"));
    let e = Endpoint::new_from_socket_addr(IpAddr::V4(10, 0, 0, 1), 443);
    assert_eq!(e.port(), Some(443));
    assert_eq!(e.ip_addr(), Some(IpAddr::V4(10, 0, 0, 1)));
    assert_eq!(e.domain(), None);
    let e = Endpoint::new_from_ip_addr(IpAddr::V6(1, 2, 3, 4, 5, 6, 7, 8));
    assert_eq!(e.port(), None);
}

#[test]
fn domain_text_round_trips() {
    let d = DomainWithPort::new("example.com".to_owned(), Some(8443));
    assert_eq!(d.to_text(), "example.com:8443");
    assert_eq!(DomainWithPort::from_str(&d.to_text()).unwrap(), d);
    let (domain, port) = d.into_domain_and_port();
    assert_eq!(domain, "example.com");
    assert_eq!(port, Some(8443));
}

#[test]
fn endpoint_error_of_domain_error() {
    assert_eq!(
        EndpointParseError::from_domain_error(DomainWithPortParseError::InvalidPort),
        EndpointParseError::InvalidPort
    );
    assert_eq!(
        EndpointParseError::from_domain_error(DomainWithPortParseError::EmptyHost),
        EndpointParseError::EmptyHost
    );
}

#[test]
fn domain_with_port_from_pair_drops_port_zero() {
    let d = DomainWithPort::from(("example.com".to_owned(), 0u16));
    assert_eq!(d.into_domain_and_port(), ("example.com".to_owned(), None));
    let d = DomainWithPort::from(("example.com".to_owned(), 8080u16));
    assert_eq!(d.into_domain_and_port(), ("example.com".to_owned(), Some(8080)));
}
