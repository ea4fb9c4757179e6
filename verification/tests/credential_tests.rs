use qiniu_sdk::credential::{
    AccessKey, ChainCredentialsProvider, ChainCredentialsProviderBuilder, Credential,
    CredentialGetError, CredentialProvider, GetOptions, GotCredential, SecretKey,
};
use qiniu_sdk::headers::HeaderMap;
use qiniu_sdk::signing::{uri_text_bytes, Method, RequestUri};
use std::cell::RefCell;
use std::rc::Rc;

fn get_credential() -> Credential {
    Credential::new(
        AccessKey::new("abcdefghklmnopq".to_owned()),
        SecretKey::new("1234567890".to_owned()),
    )
}

fn uri(path: &str, query: Option<&str>) -> RequestUri {
    RequestUri {
        scheme: Some("http".to_owned()),
        path: path.to_owned(),
        query: query.map(|q| q.to_owned()),
        host: Some("upload.qiniup.com".to_owned()),
        port: None,
    }
}

#[test]
fn test_sign() {
    let credential = get_credential();
    let got = credential.get(&GetOptions::default()).unwrap();
    assert_eq!(
        got.credential().sign(b"hello"),
        "abcdefghklmnopq:b84KVc-LroDiz0ebUANfdzSRxa0="
    );
    assert_eq!(
        got.credential().sign(b"world"),
        "abcdefghklmnopq:VjgXt0P_nCxHuaTfiFz-UjDJ1AQ="
    );
    assert_eq!(
        got.credential().sign(b"-test"),
        "abcdefghklmnopq:vYKRLUoXRlNHfpMEQeewG0zylaw="
    );
    assert_eq!(
        got.credential().sign(b"ba#a-"),
        "abcdefghklmnopq:2d_Yr6H1GdTKg3RvMtpHOhi047M="
    );
}

#[test]
fn test_sign_with_data() {
    let credential = get_credential();
    assert_eq!(
        credential.sign_with_data(b"hello"),
        "abcdefghklmnopq:BZYt5uVRy1RVt5ZTXbaIt2ROVMA=:aGVsbG8="
    );
    assert_eq!(
        credential.sign_with_data(b"world"),
        "abcdefghklmnopq:Wpe04qzPphiSZb1u6I0nFn6KpZg=:d29ybGQ="
    );
    assert_eq!(
        credential.sign_with_data(b"-test"),
        "abcdefghklmnopq:HlxenSSP_6BbaYNzx1fyeyw8v1Y=:LXRlc3Q="
    );
    assert_eq!(
        credential.sign_with_data(b"ba#a-"),
        "abcdefghklmnopq:kwzeJrFziPDMO4jv3DKVLDyqud0=:YmEjYS0="
    );
}

#[test]
fn test_authorization_v1_with_body_reader() {
    let credential = get_credential();
    assert_eq!(
        credential.authorization_v1_for_request(&uri("/", None), None, b"{\"name\":\"test\"}"),
        "QBox ".to_owned() + &credential.sign(b"/\n")
    );
    assert_eq!(
        credential.authorization_v1_for_request(
            &uri("/", None),
            Some("application/json"),
            b"{\"name\":\"test\"}"
        ),
        "QBox ".to_owned() + &credential.sign(b"/\n")
    );
    assert_eq!(
        credential.authorization_v1_for_request(
            &uri("/", None),
            Some("application/x-www-form-urlencoded"),
            b"name=test&language=go"
        ),
        "QBox ".to_owned() + &credential.sign(b"/\nname=test&language=go")
    );
    assert_eq!(
        credential.authorization_v1_for_request(
            &uri("/", Some("v=2")),
            Some("application/x-www-form-urlencoded"),
            b"name=test&language=go"
        ),
        "QBox ".to_owned() + &credential.sign(b"/?v=2\nname=test&language=go")
    );
    assert_eq!(
        credential.authorization_v1_for_request(
            &uri("/find/sdk", Some("v=2")),
            Some("application/x-www-form-urlencoded"),
            b"name=test&language=go"
        ),
        "QBox ".to_owned() + &credential.sign(b"/find/sdk?v=2\nname=test&language=go")
    );
}

fn x_qiniu_headers(content_type: &str) -> HeaderMap {
    let mut headers = HeaderMap::new();
    headers.insert("content-type", content_type);
    headers.insert("x-qbox-meta", "value");
    headers.insert("x-qiniu-cxxxx", "valuec");
    headers.insert("x-qiniu-bxxxx", "valueb");
    headers.insert("x-qiniu-axxxx", "valuea");
    headers.insert("x-qiniu-e", "value");
    headers.insert("x-qiniu-", "value");
    headers.insert("x-qiniu", "value");
    headers
}

#[test]
fn test_authorization_v2_with_body_reader() {
    let credential = get_credential();
    let empty_headers = {
        let mut headers = HeaderMap::new();
        headers.insert("x-qbox-meta", "value");
        headers
    };
    let json_headers = x_qiniu_headers("application/json");
    let form_headers = x_qiniu_headers("application/x-www-form-urlencoded");
    assert_eq!(
        credential.authorization_v2_for_request(
            &Method::GET,
            &uri("/", None),
            &json_headers,
            b"{\"name\":\"test\"}"
        ),
        "Qiniu ".to_owned()
            + &credential.sign(
                "GET /\nHost: upload.qiniup.com\nContent-Type: application/json\nX-Qiniu-Axxxx: valuea\nX-Qiniu-Bxxxx: valueb\nX-Qiniu-Cxxxx: valuec\nX-Qiniu-E: value\n\n{\"name\":\"test\"}"
                .as_bytes()
            )
    );
    assert_eq!(
        credential.authorization_v2_for_request(
            &Method::GET,
            &uri("/", None),
            &empty_headers,
            b"{\"name\":\"test\"}"
        ),
        "Qiniu ".to_owned()
            + &credential.sign("GET /\nHost: upload.qiniup.com\n\n".as_bytes())
    );
    assert_eq!(
        credential.authorization_v2_for_request(
            &Method::POST,
            &uri("/", None),
            &json_headers,
            b"{\"name\":\"test\"}"
        ),
        "Qiniu ".to_owned()
            + &credential.sign(
                "POST /\nHost: upload.qiniup.com\nContent-Type: application/json\nX-Qiniu-Axxxx: valuea\nX-Qiniu-Bxxxx: valueb\nX-Qiniu-Cxxxx: valuec\nX-Qiniu-E: value\n\n{\"name\":\"test\"}"
                .as_bytes()
            )
    );
    assert_eq!(
        credential.authorization_v2_for_request(
            &Method::GET,
            &uri("/", None),
            &form_headers,
            b"name=test&language=go"
        ),
        "Qiniu ".to_owned()
            + &credential.sign(
                "GET /\nHost: upload.qiniup.com\nContent-Type: application/x-www-form-urlencoded\nX-Qiniu-Axxxx: valuea\nX-Qiniu-Bxxxx: valueb\nX-Qiniu-Cxxxx: valuec\nX-Qiniu-E: value\n\nname=test&language=go"
                .as_bytes()
            )
    );
    assert_eq!(
        credential.authorization_v2_for_request(
            &Method::GET,
            &uri("/", Some("v=2")),
            &form_headers,
            b"name=test&language=go"
        ),
        "Qiniu ".to_owned()
            + &credential.sign(
                "GET /?v=2\nHost: upload.qiniup.com\nContent-Type: application/x-www-form-urlencoded\nX-Qiniu-Axxxx: valuea\nX-Qiniu-Bxxxx: valueb\nX-Qiniu-Cxxxx: valuec\nX-Qiniu-E: value\n\nname=test&language=go"
                .as_bytes()
            )
    );
    assert_eq!(
        credential.authorization_v2_for_request(
            &Method::GET,
            &uri("/find/sdk", Some("v=2")),
            &form_headers,
            b"name=test&language=go"
        ),
        "Qiniu ".to_owned()
            + &credential.sign(
                "GET /find/sdk?v=2\nHost: upload.qiniup.com\nContent-Type: application/x-www-form-urlencoded\nX-Qiniu-Axxxx: valuea\nX-Qiniu-Bxxxx: valueb\nX-Qiniu-Cxxxx: valuec\nX-Qiniu-E: value\n\nname=test&language=go"
                .as_bytes()
            )
    );
}

/// A provider whose credential can be set and cleared, as the global one.
#[derive(Clone)]
struct SharedProvider(Rc<RefCell<Option<Credential>>>);

impl CredentialProvider for SharedProvider {
    fn get(&self, _opts: &GetOptions) -> Result<GotCredential, CredentialGetError> {
        match self.0.borrow().as_ref() {
            Some(c) => Ok(GotCredential::new(c.duplicate())),
            None => Err(CredentialGetError { message: "not set".to_owned() }),
        }
    }
}

#[test]
fn test_chain_credentials() {
    let global = SharedProvider(Rc::new(RefCell::new(None)));
    let env = SharedProvider(Rc::new(RefCell::new(None)));
    let chain_credentials = ChainCredentialsProvider::builder(global.clone())
        .append_credential(env.clone())
        .build();
    *env.0.borrow_mut() = Some(Credential::new(
        AccessKey::new("TEST2".to_owned()),
        SecretKey::new("test2".to_owned()),
    ));
    {
        let cred = chain_credentials.get(&GetOptions::default()).unwrap();
        assert_eq!(cred.credential().access_key().as_str(), "TEST2");
    }
    *global.0.borrow_mut() = Some(Credential::new(
        AccessKey::new("TEST1".to_owned()),
        SecretKey::new("test1".to_owned()),
    ));
    {
        let cred = chain_credentials.get(&GetOptions::default()).unwrap();
        assert_eq!(cred.credential().access_key().as_str(), "TEST1");
    }
}

#[test]
fn chain_fails_when_every_provider_fails() {
    let p = SharedProvider(Rc::new(RefCell::new(None)));
    let chain = ChainCredentialsProviderBuilder::new(p.clone()).build();
    assert_eq!(
        chain.get(&GetOptions::default()).err().unwrap().message,
        "All credentials are failed to get"
    );
}

#[test]
fn prepend_puts_provider_first() {
    let first = get_credential();
    let second = Credential::new(AccessKey::new("ak2".to_owned()), SecretKey::new("sk2".to_owned()));
    let mut builder = ChainCredentialsProviderBuilder::new(first);
    builder.prepend_credential(second);
    let chain = builder.build();
    let got = chain.get(&GetOptions::default()).unwrap();
    assert_eq!(got.credential().access_key().as_str(), "ak2");
}

#[test]
fn header_order_does_not_change_v2_signature() {
    let credential = get_credential();
    let mut a = HeaderMap::new();
    a.insert("x-qiniu-b", "2");
    a.insert("X-Qiniu-A", "1");
    let mut b = HeaderMap::new();
    b.insert("X-QINIU-A", "1");
    b.insert("x-qiniu-b", "2");
    assert_eq!(
        credential.authorization_v2_for_request(&Method::PUT, &uri("/p", None), &a, b""),
        credential.authorization_v2_for_request(&Method::PUT, &uri("/p", None), &b, b"")
    );
}

#[test]
fn v2_with_port_and_octet_stream_body() {
    let credential = get_credential();
    let mut headers = HeaderMap::new();
    headers.insert("Content-Type", "application/octet-stream");
    let u = RequestUri {
        scheme: Some("http".to_owned()),
        path: "/a".to_owned(),
        query: Some("".to_owned()),
        host: Some("h".to_owned()),
        port: Some(8080),
    };
    assert_eq!(
        credential.authorization_v2_for_request(&Method::DELETE, &u, &headers, b"xyz"),
        "Qiniu ".to_owned()
            + &credential.sign(b"DELETE /a\nHost: h:8080\nContent-Type: application/octet-stream\n\n")
    );
}

fn url_string(u: &RequestUri) -> String {
    String::from_utf8(uri_text_bytes(u)).unwrap()
}

#[test]
fn test_sign_download_url() {
    let credential = get_credential();
    let url = RequestUri {
        scheme: Some("http".to_owned()),
        path: "/".to_owned(),
        query: Some("go=1".to_owned()),
        host: Some("www.qiniu.com".to_owned()),
        port: None,
    };
    let url = credential
        .get(&GetOptions::default())
        .unwrap()
        .credential()
        .sign_download_url(url, 1_234_567_890 + 3600);
    assert_eq!(
        url_string(&url),
        "http://www.qiniu.com/?go=1&e=1234571490&token=abcdefghklmnopq%3AKjQtlGAkEOhSwtFjJfYtYa2-reE%3D",
    );
}

#[test]
fn sign_download_url_without_query_starts_one() {
    let credential = get_credential();
    let url = RequestUri {
        scheme: Some("https".to_owned()),
        path: "/file name".to_owned(),
        query: None,
        host: Some("dn.example.com".to_owned()),
        port: Some(8443),
    };
    let signed = credential.sign_download_url(url, 1);
    let query = signed.query.clone().unwrap();
    assert!(query.starts_with("e=1&token=abcdefghklmnopq%3A"));
    let expected_token = credential.sign(b"https://dn.example.com:8443/file name?e=1");
    let encoded: String = expected_token.replace(':', "%3A").replace('=', "%3D");
    assert_eq!(query, format!("e=1&token={}", encoded));
}

#[test]
fn signature_is_access_key_length_plus_29() {
    let credential = get_credential();
    let got = credential.get(&GetOptions::default()).unwrap();
    for data in [&b""[..], b"hello", b"a much longer piece of data to sign"] {
        let s = got.credential().sign(data);
        assert_eq!(s.len(), "abcdefghklmnopq".len() + 29);
    }
}
