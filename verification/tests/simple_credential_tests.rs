use qiniu_sdk::headers::HeaderMap;
use qiniu_sdk::signing::{uri_text_bytes, Method, RequestUri};
use qiniu_sdk::simple_credential::{
    AsCredential, ChainCredentials, ChainCredentialsBuilder, Credential, CredentialError,
    StaticCredential,
};

fn get_static_credential() -> StaticCredential {
    StaticCredential::new("abcdefghklmnopq".to_owned(), "1234567890".to_owned())
}

fn url(path: &str, query: Option<&str>) -> RequestUri {
    RequestUri {
        scheme: Some("http".to_owned()),
        path: path.to_owned(),
        query: query.map(|q| q.to_owned()),
        host: Some("upload.qiniup.com".to_owned()),
        port: None,
    }
}

const JSON_MIME: &str = "application/json";
const FORM_MIME: &str = "application/x-www-form-urlencoded";

#[test]
fn lib_test_sign() {
    let credential = get_static_credential();
    assert_eq!(
        credential.get().unwrap().sign(b"hello"),
        "abcdefghklmnopq:b84KVc-LroDiz0ebUANfdzSRxa0="
    );
    assert_eq!(
        credential.get().unwrap().sign(b"world"),
        "abcdefghklmnopq:VjgXt0P_nCxHuaTfiFz-UjDJ1AQ="
    );
    assert_eq!(
        credential.get().unwrap().sign(b"-test"),
        "abcdefghklmnopq:vYKRLUoXRlNHfpMEQeewG0zylaw="
    );
    assert_eq!(
        credential.get().unwrap().sign(b"ba#a-"),
        "abcdefghklmnopq:2d_Yr6H1GdTKg3RvMtpHOhi047M="
    );
}

#[test]
fn test_sign_data() {
    let credential = get_static_credential();
    assert_eq!(
        credential.get().unwrap().sign_with_data(b"hello"),
        "abcdefghklmnopq:BZYt5uVRy1RVt5ZTXbaIt2ROVMA=:aGVsbG8="
    );
    assert_eq!(
        credential.get().unwrap().sign_with_data(b"world"),
        "abcdefghklmnopq:Wpe04qzPphiSZb1u6I0nFn6KpZg=:d29ybGQ="
    );
    assert_eq!(
        credential.get().unwrap().sign_with_data(b"-test"),
        "abcdefghklmnopq:HlxenSSP_6BbaYNzx1fyeyw8v1Y=:LXRlc3Q="
    );
    assert_eq!(
        credential.get().unwrap().sign_with_data(b"ba#a-"),
        "abcdefghklmnopq:kwzeJrFziPDMO4jv3DKVLDyqud0=:YmEjYS0="
    );
}

#[test]
fn test_authorization_v1() {
    let credential = get_static_credential();
    let c = credential.get().unwrap();
    assert_eq!(
        c.authorization_v1_for_request(&url("/", None), "", b"{\"name\":\"test\"}"),
        "QBox ".to_owned() + &c.sign(b"/\n")
    );
    assert_eq!(
        c.authorization_v1_for_request(&url("/", None), JSON_MIME, b"{\"name\":\"test\"}"),
        "QBox ".to_owned() + &c.sign(b"/\n")
    );
    assert_eq!(
        c.authorization_v1_for_request(&url("/", None), FORM_MIME, b"name=test&language=go"),
        "QBox ".to_owned() + &c.sign(b"/\nname=test&language=go")
    );
    assert_eq!(
        c.authorization_v1_for_request(&url("/", Some("v=2")), FORM_MIME, b"name=test&language=go"),
        "QBox ".to_owned() + &c.sign(b"/?v=2\nname=test&language=go")
    );
    assert_eq!(
        c.authorization_v1_for_request(
            &url("/find/sdk", Some("v=2")),
            FORM_MIME,
            b"name=test&language=go"
        ),
        "QBox ".to_owned() + &c.sign(b"/find/sdk?v=2\nname=test&language=go")
    );
}

#[test]
fn test_authorization_v2() {
    let c = get_static_credential().get().unwrap();
    let mut empty_headers = HeaderMap::new();
    empty_headers.insert("X-Qbox-Meta", "value");
    let mut json_headers = HeaderMap::new();
    json_headers.insert("Content-Type", JSON_MIME);
    json_headers.insert("X-Qbox-Meta", "value");
    json_headers.insert("X-Qiniu-Cxxxx", "valuec");
    json_headers.insert("X-Qiniu-Bxxxx", "valueb");
    json_headers.insert("X-Qiniu-axxxx", "valuea");
    json_headers.insert("X-Qiniu-e", "value");
    json_headers.insert("X-Qiniu-", "value");
    json_headers.insert("X-Qiniu", "value");
    let mut form_headers = HeaderMap::new();
    form_headers.insert("Content-Type", FORM_MIME);
    form_headers.insert("X-Qbox-Meta", "value");
    form_headers.insert("X-Qiniu-Cxxxx", "valuec");
    form_headers.insert("X-Qiniu-Bxxxx", "valueb");
    form_headers.insert("X-Qiniu-axxxx", "valuea");
    form_headers.insert("X-Qiniu-e", "value");
    form_headers.insert("X-Qiniu-", "value");
    form_headers.insert("X-Qiniu", "value");
    let x_qiniu = "X-Qiniu-Axxxx: valuea\nX-Qiniu-Bxxxx: valueb\nX-Qiniu-Cxxxx: valuec\nX-Qiniu-E: value\n\n";
    assert_eq!(
        c.authorization_v2_for_request(Method::GET, &url("/", None), &json_headers, b"{\"name\":\"test\"}"),
        "Qiniu ".to_owned()
            + &c.sign(
                format!(
                    "GET /\nHost: upload.qiniup.com\nContent-Type: application/json\n{}{}",
                    x_qiniu, "{\"name\":\"test\"}"
                )
                .as_bytes()
            )
    );
    assert_eq!(
        c.authorization_v2_for_request(Method::GET, &url("/", None), &empty_headers, b"{\"name\":\"test\"}"),
        "Qiniu ".to_owned() + &c.sign(b"GET /\nHost: upload.qiniup.com\n\n")
    );
    assert_eq!(
        c.authorization_v2_for_request(Method::POST, &url("/", None), &json_headers, b"{\"name\":\"test\"}"),
        "Qiniu ".to_owned()
            + &c.sign(
                format!(
                    "POST /\nHost: upload.qiniup.com\nContent-Type: application/json\n{}{}",
                    x_qiniu, "{\"name\":\"test\"}"
                )
                .as_bytes()
            )
    );
    assert_eq!(
        c.authorization_v2_for_request(Method::GET, &url("/", None), &form_headers, b"name=test&language=go"),
        "Qiniu ".to_owned()
            + &c.sign(
                format!(
                    "GET /\nHost: upload.qiniup.com\nContent-Type: application/x-www-form-urlencoded\n{}{}",
                    x_qiniu, "name=test&language=go"
                )
                .as_bytes()
            )
    );
    assert_eq!(
        c.authorization_v2_for_request(Method::GET, &url("/", Some("v=2")), &form_headers, b"name=test&language=go"),
        "Qiniu ".to_owned()
            + &c.sign(
                format!(
                    "GET /?v=2\nHost: upload.qiniup.com\nContent-Type: application/x-www-form-urlencoded\n{}{}",
                    x_qiniu, "name=test&language=go"
                )
                .as_bytes()
            )
    );
    assert_eq!(
        c.authorization_v2_for_request(
            Method::GET,
            &url("/find/sdk", Some("v=2")),
            &form_headers,
            b"name=test&language=go"
        ),
        "Qiniu ".to_owned()
            + &c.sign(
                format!(
                    "GET /find/sdk?v=2\nHost: upload.qiniup.com\nContent-Type: application/x-www-form-urlencoded\n{}{}",
                    x_qiniu, "name=test&language=go"
                )
                .as_bytes()
            )
    );
}

#[test]
fn lib_test_sign_download_url() {
    let credential = get_static_credential();
    {
        let mut u = RequestUri {
            scheme: Some("http".to_owned()),
            path: "/".to_owned(),
            query: Some("go=1".to_owned()),
            host: Some("www.qiniu.com".to_owned()),
            port: None,
        };
        credential
            .get()
            .unwrap()
            .sign_download_url(&mut u, 1_234_567_890 + 3600, false);
        assert_eq!(
            String::from_utf8(uri_text_bytes(&u)).unwrap(),
            "http://www.qiniu.com/?go=1&e=1234571490&token=abcdefghklmnopq%3AKjQtlGAkEOhSwtFjJfYtYa2-reE%3D",
        );
    }
    {
        let mut u = RequestUri {
            scheme: Some("http".to_owned()),
            path: "/".to_owned(),
            query: Some("go=1".to_owned()),
            host: Some("www.qiniu.com".to_owned()),
            port: None,
        };
        credential
            .get()
            .unwrap()
            .sign_download_url(&mut u, 1_234_567_890 + 3600, true);
        assert_eq!(
            String::from_utf8(uri_text_bytes(&u)).unwrap(),
            "http://www.qiniu.com/?go=1&e=1234571490&token=abcdefghklmnopq%3A86uQeCB9GsFFvL2wA0mgBcOMsmk%3D",
        );
    }
}

#[test]
fn sign_download_url_clamps_deadline_to_u32() {
    let c = get_static_credential().get().unwrap();
    let mut u = RequestUri {
        scheme: None,
        path: "/a".to_owned(),
        query: None,
        host: None,
        port: None,
    };
    c.sign_download_url(&mut u, u64::MAX, true);
    let q = u.query.unwrap();
    let expected = c.sign(b"/a?e=4294967295").replace(':', "%3A").replace('=', "%3D");
    assert_eq!(q, format!("e=4294967295&token={}", expected));
}

struct Failing;

impl AsCredential for Failing {
    fn get(&self) -> Result<Credential, CredentialError> {
        Err(CredentialError { message: "no".to_owned() })
    }
}

enum Member {
    Fail(Failing),
    Static(StaticCredential),
}

impl AsCredential for Member {
    fn get(&self) -> Result<Credential, CredentialError> {
        match self {
            Member::Fail(f) => f.get(),
            Member::Static(s) => s.get(),
        }
    }
}

#[test]
fn lib_test_chain_credentials() {
    let chain: ChainCredentials<Member> = ChainCredentialsBuilder::new()
        .append_credential(Member::Fail(Failing))
        .append_credential(Member::Static(StaticCredential::new(
            "TEST2".to_owned(),
            "test2".to_owned(),
        )))
        .build();
    assert_eq!(chain.get().unwrap().access_key(), "TEST2");
    let chain: ChainCredentials<Member> = ChainCredentialsBuilder::new()
        .append_credential(Member::Fail(Failing))
        .append_credential(Member::Static(StaticCredential::new(
            "TEST2".to_owned(),
            "test2".to_owned(),
        )))
        .prepend_credential(Member::Static(StaticCredential::new(
            "TEST1".to_owned(),
            "test1".to_owned(),
        )))
        .build();
    assert_eq!(chain.get().unwrap().access_key(), "TEST1");
    let failing: ChainCredentials<Member> = ChainCredentialsBuilder::new()
        .append_credential(Member::Fail(Failing))
        .build();
    assert!(failing.get().is_err());
}
