use qiniu_sdk::authorization::{
    authorization_v1_for_request, authorization_v2_for_request, uptoken_authorization,
    Authorization, AuthorizationError, Request,
};
use qiniu_sdk::credential::{
    AccessKey, CredentialGetError, CredentialProvider, Credential, GetOptions, GotCredential,
    SecretKey,
};
use qiniu_sdk::headers::HeaderMap;
use qiniu_sdk::signing::{Method, RequestUri};
use qiniu_sdk::upload_token::StaticUploadTokenProvider;

fn get_credential() -> Credential {
    Credential::new(
        AccessKey::new("abcdefghklmnopq".to_owned()),
        SecretKey::new("1234567890".to_owned()),
    )
}

fn request(content_type: Option<&str>, body: &[u8]) -> Request {
    let mut headers = HeaderMap::new();
    if let Some(ct) = content_type {
        headers.insert("Content-Type", ct);
    }
    Request {
        method: Method::POST,
        url: RequestUri {
            scheme: Some("http".to_owned()),
            path: "/".to_owned(),
            query: None,
            host: Some("upload.qiniup.com".to_owned()),
            port: None,
        },
        headers,
        body: body.to_vec(),
    }
}

struct FailingProvider;

impl CredentialProvider for FailingProvider {
    fn get(&self, _opts: &GetOptions) -> Result<GotCredential, CredentialGetError> {
        Err(CredentialGetError {
            message: "no credential".to_owned(),
        })
    }
}

#[test]
fn uptoken_authorization_prefixes_the_token() {
    assert_eq!(uptoken_authorization("abc:def"), "UpToken abc:def");
}

#[test]
fn authorization_v1_reads_the_content_type_header() {
    let credential = get_credential();
    let body = b"name=test&language=go";
    let form = request(Some("application/x-www-form-urlencoded"), body);
    assert_eq!(
        authorization_v1_for_request(&credential, &form),
        "QBox ".to_owned() + &credential.sign(b"/\nname=test&language=go")
    );
    let json = request(Some("application/json"), body);
    assert_eq!(
        authorization_v1_for_request(&credential, &json),
        "QBox ".to_owned() + &credential.sign(b"/\n")
    );
}

#[test]
fn authorization_v2_signs_method_host_and_form_body() {
    let credential = get_credential();
    let form = request(Some("application/x-www-form-urlencoded"), b"name=test&language=go");
    assert_eq!(
        authorization_v2_for_request(&credential, &form),
        "Qiniu ".to_owned()
            + &credential.sign(
                b"POST /\nHost: upload.qiniup.com\nContent-Type: application/x-www-form-urlencoded\n\nname=test&language=go"
            )
    );
}

#[test]
fn sign_sets_the_authorization_header() {
    let credential = get_credential();
    let mut req = request(Some("application/json"), b"{}");
    let auth: Authorization<StaticUploadTokenProvider, Credential> =
        Authorization::v2(get_credential());
    auth.sign(&mut req).unwrap();
    let expected = authorization_v2_for_request(&credential, &request(Some("application/json"), b"{}"));
    assert_eq!(req.headers.get("authorization"), Some(expected.as_str()));

    let mut req = request(None, b"");
    let auth: Authorization<StaticUploadTokenProvider, Credential> =
        Authorization::uptoken(StaticUploadTokenProvider::new("token:abc".to_owned()));
    auth.sign(&mut req).unwrap();
    assert_eq!(req.headers.get("Authorization"), Some("UpToken token:abc"));
}

#[test]
fn sign_fails_and_leaves_the_request_where_the_provider_fails() {
    let mut req = request(None, b"body");
    let auth: Authorization<StaticUploadTokenProvider, FailingProvider> =
        Authorization::v1(FailingProvider);
    assert_eq!(
        auth.sign(&mut req),
        Err(AuthorizationError::IOError("no credential".to_owned()))
    );
    assert_eq!(req.headers.get("Authorization"), None);
    assert_eq!(req.headers.len(), 0);
}
