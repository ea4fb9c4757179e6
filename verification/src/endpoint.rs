//! Endpoints of Qiniu services: a domain or an IP address, each with an
//! optional port.

use crate::text::{ascii_chars, decimal, decimal_string};
use vstd::prelude::*;
use vstd::string::*;

verus! {

/// An IP address.
#[derive(Debug, Copy, Clone, PartialEq, Eq, Hash, Structural)]
pub enum IpAddr {
    V4(u8, u8, u8, u8),
    V6(u16, u16, u16, u16, u16, u16, u16, u16),
}

/// Why the `url` crate rejected a URL, as far as host parsing tells it.
#[derive(Debug, Copy, Clone, PartialEq, Eq, Structural)]
pub enum UrlHostError {
    InvalidPort,
    EmptyHost,
    Other,
}

/// What `url::Url::parse` gives for the domain and the port of a URL.
pub uninterp spec fn url_domain_and_port(url: Seq<char>) -> Result<
    (Option<Seq<char>>, Option<u16>),
    UrlHostError,
>;

/// Parses `url` with `url::Url::parse` of the `url` crate and gives its
/// `domain()` and `port()`, or the parse error (`InvalidPort` and
/// `EmptyHost` told apart, every other error as `Other`). What the `url`
/// crate accepts and gives is not stated; it is named.
#[verifier::external_body]
fn parse_domain_and_port(url: &str) -> (r: Result<(Option<String>, Option<u16>), UrlHostError>)
    ensures
        url_domain_and_port(url@) == match r {
            Ok((d, p)) => Ok(
                (
                    match d {
                        Some(x) => Some(x@),
                        None => None,
                    },
                    p,
                ),
            ),
            Err(e) => Err(e),
        },
{
    match url::Url::parse(url) {
        Ok(u) => Ok((u.domain().map(|d| d.to_owned()), u.port())),
        Err(url::ParseError::InvalidPort) => Err(UrlHostError::InvalidPort),
        Err(url::ParseError::EmptyHost) => Err(UrlHostError::EmptyHost),
        Err(_) => Err(UrlHostError::Other),
    }
}

/// A domain with an optional port (never 0).
#[derive(Clone, Debug, PartialEq, Eq)]
pub struct DomainWithPort {
    domain: String,
    port: Option<u16>,
}

impl View for DomainWithPort {
    type V = (Seq<char>, Option<u16>);

    closed spec fn view(&self) -> (Seq<char>, Option<u16>) {
        (self.domain@, self.port)
    }
}

/// A port of 0 stands for no port.
pub open spec fn nonzero_port(port: u16) -> Option<u16> {
    if port == 0 {
        None
    } else {
        Some(port)
    }
}

impl From<(String, u16)> for DomainWithPort {
    /// A domain with a port, where a port of 0 gives no port.
    fn from(domain_with_port: (String, u16)) -> (d: Self) {
        let (domain, port) = domain_with_port;
        DomainWithPort { domain, port: if port == 0 { None } else { Some(port) } }
    }
}

impl vstd::std_specs::convert::FromSpecImpl<(String, u16)> for DomainWithPort {
    open spec fn obeys_from_spec() -> bool {
        true
    }

    closed spec fn from_spec(v: (String, u16)) -> Self {
        DomainWithPort { domain: v.0, port: nonzero_port(v.1) }
    }
}

/// What `from` makes of a domain and a port: the domain, with no port where
/// the port is 0.
pub proof fn lemma_from_domain_and_port(v: (String, u16))
    ensures
        <DomainWithPort as vstd::std_specs::convert::FromSpec<(String, u16)>>::from_spec(v)@
            == (v.0@, nonzero_port(v.1)),
{
}

/// Why a domain with port could not be parsed.
#[derive(Debug, Copy, Clone, PartialEq, Eq, Structural)]
#[non_exhaustive]
pub enum DomainWithPortParseError {
    InvalidPort,
    EmptyHost,
    InvalidDomainCharacter,
}

/// `domain` or `domain:port`.
pub open spec fn domain_with_port_text(domain: Seq<char>, port: Option<u16>) -> Seq<char> {
    match port {
        Some(p) => domain + seq![':'] + ascii_chars(decimal(p as nat)),
        None => domain,
    }
}

/// The result of parsing `s` as a domain with port, given what the `url`
/// crate makes of `https://s/`: the domain and port where writing them back
/// gives `s`.
pub open spec fn domain_with_port_parse(
    s: Seq<char>,
    parsed: Result<(Option<Seq<char>>, Option<u16>), UrlHostError>,
) -> Result<(Seq<char>, Option<u16>), DomainWithPortParseError> {
    match parsed {
        Err(UrlHostError::InvalidPort) => Err(DomainWithPortParseError::InvalidPort),
        Err(UrlHostError::EmptyHost) => Err(DomainWithPortParseError::EmptyHost),
        Err(UrlHostError::Other) => Err(DomainWithPortParseError::InvalidDomainCharacter),
        Ok((Some(d), None)) => if d == s {
            Ok((d, None))
        } else {
            Err(DomainWithPortParseError::InvalidDomainCharacter)
        },
        Ok((Some(d), Some(p))) => if domain_with_port_text(d, Some(p)) == s {
            Ok((d, if p == 0 { None } else { Some(p) }))
        } else {
            Err(DomainWithPortParseError::InvalidDomainCharacter)
        },
        Ok((None, _)) => Err(DomainWithPortParseError::InvalidDomainCharacter),
    }
}

/// A domain with port that parses writes back to the text it was parsed
/// from, but for an explicit port 0, which the parse drops.
pub proof fn parsed_domain_writes_back(
    s: Seq<char>,
    parsed: Result<(Option<Seq<char>>, Option<u16>), UrlHostError>,
)
    ensures
        domain_with_port_parse(s, parsed) matches Ok(dv) ==> (domain_with_port_text(dv.0, dv.1) == s || (
        dv.1 is None && s == dv.0 + ":0"@)),
{
    reveal_strlit(":0");
    if let Ok((Some(d), Some(p))) = parsed {
        if p == 0 && domain_with_port_text(d, Some(p)) == s {
            assert(decimal(0) == seq![48u8]);
            assert(ascii_chars(decimal(0)) =~= seq!['0']);
            assert(s =~= d + ":0"@);
        }
    }
}

/// `https://s/`
pub open spec fn https_url_of(s: Seq<char>) -> Seq<char> {
    "https://"@ + s + "/"@
}

/// `domain` or `domain:port`, written out.
fn text_of(domain: &str, port: Option<u16>) -> (s: String)
    ensures
        s@ == domain_with_port_text(domain@, port),
{
    let mut s = domain.to_owned();
    if let Some(p) = port {
        proof {
            reveal_strlit(":");
        }
        s.append(":");
        let digits = decimal_string(p as u64);
        s.append(digits.as_str());
    }
    s
}

impl DomainWithPort {
    /// A domain with a port (`None`, or a port that is not 0).
    pub fn new(domain: String, port: Option<u16>) -> (d: Self)
        requires
            port != Some(0u16),
        ensures
            d@ == (domain@, port),
    {
        DomainWithPort { domain, port }
    }

    /// The domain.
    pub fn domain(&self) -> (d: &str)
        ensures
            d@ == self@.0,
    {
        self.domain.as_str()
    }

    /// The port.
    pub fn port(&self) -> (p: Option<u16>)
        ensures
            p == self@.1,
    {
        self.port
    }

    /// A copy.
    pub fn duplicate(&self) -> (d: Self)
        ensures
            d == *self,
    {
        DomainWithPort { domain: self.domain.clone(), port: self.port }
    }

    /// The domain and the port.
    pub fn into_domain_and_port(self) -> (r: (String, Option<u16>))
        ensures
            r.0@ == self@.0,
            r.1 == self@.1,
    {
        (self.domain, self.port)
    }

    /// `domain` or `domain:port`.
    pub fn to_text(&self) -> (s: String)
        ensures
            s@ == domain_with_port_text(self@.0, self@.1),
    {
        text_of(self.domain.as_str(), self.port)
    }

    /// Parses `domain` or `domain:port`, as the `url` crate reads the host of
    /// `https://s/`.
    pub fn from_str(s: &str) -> (r: Result<Self, DomainWithPortParseError>)
        ensures
            match r {
                Ok(d) => domain_with_port_parse(s@, url_domain_and_port(https_url_of(s@)))
                    == Ok::<(Seq<char>, Option<u16>), DomainWithPortParseError>(d@),
                Err(e) => domain_with_port_parse(s@, url_domain_and_port(https_url_of(s@)))
                    == Err::<(Seq<char>, Option<u16>), DomainWithPortParseError>(e),
            },
    {
        let mut url = "https://".to_owned();
        url.append(s);
        url.append("/");
        let parsed = parse_domain_and_port(url.as_str());
        Self::from_parsed(s, parsed)
    }

    /// The domain with port that `s` is, given what the `url` crate made of
    /// `https://s/`.
    pub fn from_parsed(s: &str, parsed: Result<(Option<String>, Option<u16>), UrlHostError>) -> (r:
        Result<Self, DomainWithPortParseError>)
        ensures
            ({
                let pv = match parsed {
                    Ok((d, p)) => Ok(
                        (
                            match d {
                                Some(x) => Some(x@),
                                None => None,
                            },
                            p,
                        ),
                    ),
                    Err(e) => Err(e),
                };
                match r {
                    Ok(d) => domain_with_port_parse(s@, pv) == Ok::<
                        (Seq<char>, Option<u16>),
                        DomainWithPortParseError,
                    >(d@),
                    Err(e) => domain_with_port_parse(s@, pv) == Err::<
                        (Seq<char>, Option<u16>),
                        DomainWithPortParseError,
                    >(e),
                }
            }),
    {
        match parsed {
            Err(UrlHostError::InvalidPort) => Err(DomainWithPortParseError::InvalidPort),
            Err(UrlHostError::EmptyHost) => Err(DomainWithPortParseError::EmptyHost),
            Err(UrlHostError::Other) => Err(DomainWithPortParseError::InvalidDomainCharacter),
            Ok((Some(domain), None)) => {
                if crate::http_error::str_eq(domain.as_str(), s) {
                    Ok(DomainWithPort { domain, port: None })
                } else {
                    Err(DomainWithPortParseError::InvalidDomainCharacter)
                }
            },
            Ok((Some(domain), Some(port))) => {
                let text = text_of(domain.as_str(), Some(port));
                if crate::http_error::str_eq(text.as_str(), s) {
                    let port = if port == 0 {
                        None
                    } else {
                        Some(port)
                    };
                    Ok(DomainWithPort { domain, port })
                } else {
                    Err(DomainWithPortParseError::InvalidDomainCharacter)
                }
            },
            Ok((None, _)) => Err(DomainWithPortParseError::InvalidDomainCharacter),
        }
    }
}

/// An IP address with an optional port (never 0).
#[derive(Copy, Clone, Debug, PartialEq, Eq, Hash, Structural)]
pub struct IpAddrWithPort {
    ip_addr: IpAddr,
    port: Option<u16>,
}

impl View for IpAddrWithPort {
    type V = (IpAddr, Option<u16>);

    closed spec fn view(&self) -> (IpAddr, Option<u16>) {
        (self.ip_addr, self.port)
    }
}

impl IpAddrWithPort {
    /// An IP address with a port (`None`, or a port that is not 0).
    pub fn new(ip_addr: IpAddr, port: Option<u16>) -> (a: Self)
        requires
            port != Some(0u16),
        ensures
            a@ == (ip_addr, port),
    {
        IpAddrWithPort { ip_addr, port }
    }

    /// The address.
    pub fn ip_addr(&self) -> (ip: IpAddr)
        ensures
            ip == self@.0,
    {
        self.ip_addr
    }

    /// The port.
    pub fn port(&self) -> (p: Option<u16>)
        ensures
            p == self@.1,
            p != Some(0u16),
    {
        proof {
            use_type_invariant(self);
        }
        self.port
    }

    /// The port is never 0.
    #[verifier::type_invariant]
    spec fn port_is_not_zero(self) -> bool {
        self.port != Some(0u16)
    }
}

/// A domain or an IP address, with an optional port.
#[derive(Clone, Debug, PartialEq, Eq)]
#[non_exhaustive]
pub enum Endpoint {
    DomainWithPort(DomainWithPort),
    IpAddrWithPort(IpAddrWithPort),
}

/// Why an endpoint could not be parsed.
#[derive(Debug, Copy, Clone, PartialEq, Eq, Structural)]
#[non_exhaustive]
pub enum EndpointParseError {
    InvalidPort,
    EmptyHost,
    InvalidDomainCharacter,
}

impl EndpointParseError {
    /// The endpoint error of a domain error.
    pub fn from_domain_error(err: DomainWithPortParseError) -> (e: Self)
        ensures
            e == match err {
                DomainWithPortParseError::InvalidPort => EndpointParseError::InvalidPort,
                DomainWithPortParseError::EmptyHost => EndpointParseError::EmptyHost,
                DomainWithPortParseError::InvalidDomainCharacter => EndpointParseError::InvalidDomainCharacter,
            },
    {
        match err {
            DomainWithPortParseError::InvalidPort => EndpointParseError::InvalidPort,
            DomainWithPortParseError::EmptyHost => EndpointParseError::EmptyHost,
            DomainWithPortParseError::InvalidDomainCharacter => EndpointParseError::InvalidDomainCharacter,
        }
    }
}

impl Endpoint {
    /// An endpoint of a domain without port.
    pub fn new_from_domain(domain: String) -> (e: Self)
        ensures
            e matches Endpoint::DomainWithPort(d) && d@ == (domain@, None::<u16>),
    {
        Endpoint::DomainWithPort(DomainWithPort { domain, port: None })
    }

    /// An endpoint of a domain with port; port 0 means no port.
    pub fn new_from_domain_with_port(domain: String, port: u16) -> (e: Self)
        ensures
            e matches Endpoint::DomainWithPort(d) && d@ == (domain@, if port == 0 {
                None
            } else {
                Some(port)
            }),
    {
        let port = if port == 0 {
            None
        } else {
            Some(port)
        };
        Endpoint::DomainWithPort(DomainWithPort { domain, port })
    }

    /// An endpoint of an IP address without port.
    pub fn new_from_ip_addr(ip_addr: IpAddr) -> (e: Self)
        ensures
            e matches Endpoint::IpAddrWithPort(a) && a@ == (ip_addr, None::<u16>),
    {
        Endpoint::IpAddrWithPort(IpAddrWithPort { ip_addr, port: None })
    }

    /// An endpoint of a socket address; port 0 means no port.
    pub fn new_from_socket_addr(ip_addr: IpAddr, port: u16) -> (e: Self)
        ensures
            e matches Endpoint::IpAddrWithPort(a) && a@ == (ip_addr, if port == 0 {
                None
            } else {
                Some(port)
            }),
    {
        let port = if port == 0 {
            None
        } else {
            Some(port)
        };
        Endpoint::IpAddrWithPort(IpAddrWithPort { ip_addr, port })
    }

    /// The domain, where the endpoint is one.
    pub fn domain(&self) -> (d: Option<&str>)
        ensures
            match self {
                Endpoint::DomainWithPort(dp) => d matches Some(x) && x@ == dp@.0,
                Endpoint::IpAddrWithPort(_) => d is None,
            },
    {
        match self {
            Endpoint::DomainWithPort(d) => Some(d.domain()),
            Endpoint::IpAddrWithPort(_) => None,
        }
    }

    /// The IP address, where the endpoint is one.
    pub fn ip_addr(&self) -> (ip: Option<IpAddr>)
        ensures
            match self {
                Endpoint::DomainWithPort(_) => ip is None,
                Endpoint::IpAddrWithPort(a) => ip == Some(a@.0),
            },
    {
        match self {
            Endpoint::DomainWithPort(_) => None,
            Endpoint::IpAddrWithPort(a) => Some(a.ip_addr()),
        }
    }

    /// The port.
    pub fn port(&self) -> (p: Option<u16>)
        ensures
            p == match self {
                Endpoint::DomainWithPort(d) => d@.1,
                Endpoint::IpAddrWithPort(a) => a@.1,
            },
    {
        match self {
            Endpoint::DomainWithPort(d) => d.port(),
            Endpoint::IpAddrWithPort(a) => a.port(),
        }
    }

    /// Parses an endpoint: an IP address with port where `s` is one (what
    /// the standard library parsed of `s` is `ip`), else a domain with port.
    pub fn parse_with_ip(s: &str, ip: Option<IpAddrWithPort>) -> (r: Result<Self, EndpointParseError>)
        ensures
            match ip {
                Some(a) => r == Ok::<Endpoint, EndpointParseError>(Endpoint::IpAddrWithPort(a)),
                None => match domain_with_port_parse(s@, url_domain_and_port(https_url_of(s@))) {
                    Ok(dv) => r matches Ok(Endpoint::DomainWithPort(d)) && d@ == dv,
                    Err(e) => r == Err::<Endpoint, EndpointParseError>(
                        EndpointParseError::from_domain_error_spec(e),
                    ),
                },
            },
    {
        match ip {
            Some(a) => Ok(Endpoint::IpAddrWithPort(a)),
            None => match DomainWithPort::from_str(s) {
                Ok(d) => Ok(Endpoint::DomainWithPort(d)),
                Err(e) => Err(EndpointParseError::from_domain_error(e)),
            },
        }
    }
}

impl EndpointParseError {
    pub open spec fn from_domain_error_spec(err: DomainWithPortParseError) -> Self {
        match err {
            DomainWithPortParseError::InvalidPort => EndpointParseError::InvalidPort,
            DomainWithPortParseError::EmptyHost => EndpointParseError::EmptyHost,
            DomainWithPortParseError::InvalidDomainCharacter => EndpointParseError::InvalidDomainCharacter,
        }
    }
}

} // verus!
