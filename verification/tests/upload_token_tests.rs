use qiniu_sdk::credential::{
    AccessKey, Credential, CredentialGetError, CredentialProvider, GetOptions, SecretKey,
};
use qiniu_sdk::upload_parts::{
    DummyResumableRecorder, DummyResumableRecorderMedium, MediumError, MultiPartsV1ResumableRecorderHeader,
    ResumableRecorder,
    MultiPartsV1Uploader, MultiPartsV1UploaderUploadedPart, UploadedPart,
};
use qiniu_sdk::upload_policy::{UploadPolicy, UploadPolicyBuilder};
use qiniu_sdk::token_providers::{
    bucket_name, BucketUploadTokenProvider, CachedValue, ObjectUploadTokenProvider, OnPolicyGenerated,
};
use qiniu_sdk::upload_token::{
    access_key_from, token_from_credential,
    FromUploadPolicy, GetAccessKeyOptions, GetPolicyOptions, ParseError,
    StaticUploadTokenProvider, ToStringOptions, UploadTokenProvider,
};

fn get_credential() -> Credential {
    Credential::new(
        AccessKey::new("abcdefghklmnopq".to_owned()),
        SecretKey::new("1234567890".to_owned()),
    )
}

#[test]
fn test_build_upload_token_from_upload_policy() {
    let policy = UploadPolicyBuilder::new_policy_for_object(
        "test_bucket".to_owned(),
        "test:file".to_owned(),
        3600,
    )
    .build();
    let token = FromUploadPolicy::new(policy, get_credential())
        .to_token_string(&ToStringOptions::default())
        .unwrap()
        .into_string();
    assert!(token.starts_with("abcdefghklmnopq"));
    let token = StaticUploadTokenProvider::new(token);
    let policy = token.policy(&GetPolicyOptions::default()).unwrap();
    assert_eq!(policy.upload_policy().bucket().as_deref(), Some("test_bucket"));
    assert_eq!(policy.upload_policy().key().as_deref(), Some("test:file"));
    let ak = token.access_key(&GetAccessKeyOptions::default()).unwrap();
    assert_eq!(ak.access_key().as_str(), "abcdefghklmnopq");
}

struct SetReturnBody;

impl OnPolicyGenerated for SetReturnBody {
    fn on_policy_generated(&self, policy: UploadPolicyBuilder) -> UploadPolicyBuilder {
        policy.return_body("{\"key\":$(key)}".to_owned())
    }
}

#[test]
fn test_build_upload_token_for_bucket() {
    let provider = BucketUploadTokenProvider::builder("test_bucket".to_owned(), 3600, get_credential())
        .on_policy_generated(SetReturnBody)
        .build();
    let token = provider.to_token_string(&ToStringOptions::default()).unwrap().into_string();
    assert!(token.starts_with("abcdefghklmnopq"));
    let policy = provider.policy(&GetPolicyOptions::default()).unwrap();
    assert_eq!(policy.upload_policy().bucket().as_deref(), Some("test_bucket"));
    assert_eq!(policy.upload_policy().key(), None);
    assert_eq!(policy.upload_policy().return_body().as_deref(), Some("{\"key\":$(key)}"));
}

#[test]
fn object_provider_and_bucket_name() {
    let provider = ObjectUploadTokenProvider::new("b".to_owned(), "dir/k".to_owned(), 60, get_credential());
    let policy = provider.policy(&GetPolicyOptions::default()).unwrap();
    assert_eq!(policy.upload_policy().key().as_deref(), Some("dir/k"));
    assert_eq!(bucket_name(&provider, &GetPolicyOptions::default()).unwrap(), "b");
    let token = provider.to_token_string(&ToStringOptions::default()).unwrap().into_string();
    let read_back = StaticUploadTokenProvider::new(token);
    assert_eq!(bucket_name(&read_back, &GetPolicyOptions::default()).unwrap(), "b");
    let no_scope = UploadPolicy::from_json(b"{\"deadline\":1}").unwrap();
    let from = FromUploadPolicy::new(no_scope, get_credential());
    assert_eq!(
        bucket_name(&from, &GetPolicyOptions::default()).unwrap_err(),
        ParseError::InvalidUploadTokenFormat
    );
    assert_eq!(
        bucket_name(&StaticUploadTokenProvider::new("bad".to_owned()), &GetPolicyOptions::default()).unwrap_err(),
        ParseError::Base64DecodeError
    );
}

#[test]
fn policies_last_for_their_lifetime_from_now() {
    let policy = UploadPolicyBuilder::new_policy_for_bucket_at("b".to_owned(), 3600, 1_700_000_000).build();
    assert_eq!(policy.as_json(), "{\"deadline\":1700003600,\"scope\":\"b\"}");
    let policy = UploadPolicyBuilder::new_policy_for_bucket_at("b".to_owned(), u64::MAX, 10).build();
    assert_eq!(policy.as_json(), format!("{{\"deadline\":{},\"scope\":\"b\"}}", u64::MAX));
}

#[test]
fn built_policy_json_has_fields_in_order() {
    let policy = UploadPolicyBuilder::new_policy_for_object_at("b".to_owned(), "k".to_owned(), 42, 0).build();
    assert_eq!(policy.as_json(), "{\"deadline\":42,\"scope\":\"b:k\"}");
    let reread = UploadPolicy::from_json(policy.as_json().as_bytes()).unwrap();
    assert_eq!(reread.as_json(), policy.as_json());
}

#[test]
fn token_is_signature_of_policy() {
    let policy = UploadPolicyBuilder::new_policy_for_bucket_at("b".to_owned(), 1, 0).build();
    let json = policy.as_json().to_owned();
    let token = FromUploadPolicy::new(policy, get_credential())
        .to_token_string(&ToStringOptions::default())
        .unwrap();
    assert_eq!(token.as_str(), get_credential().sign_with_data(json.as_bytes()));
}

#[test]
fn static_token_errors() {
    let p = StaticUploadTokenProvider::new("no-colon-here".to_owned());
    assert_eq!(
        p.access_key(&GetAccessKeyOptions::default()).unwrap_err(),
        ParseError::InvalidUploadTokenFormat
    );
    assert_eq!(p.policy(&GetPolicyOptions::default()).unwrap_err(), ParseError::Base64DecodeError);
    let p = StaticUploadTokenProvider::new("ak:sig:bm90IGpzb24=".to_owned());
    assert!(matches!(
        p.policy(&GetPolicyOptions::default()).unwrap_err(),
        ParseError::JsonDecodeError(_)
    ));
    let p = StaticUploadTokenProvider::new("ak:sig:e30=".to_owned());
    assert_eq!(
        p.policy(&GetPolicyOptions::default()).unwrap().upload_policy().as_json(),
        "{}"
    );
    assert_eq!(
        p.to_token_string(&ToStringOptions::default()).unwrap().as_str(),
        "ak:sig:e30="
    );
}

#[test]
fn uploaded_parts_make_file_size_and_body() {
    let parts = vec![
        MultiPartsV1UploaderUploadedPart::new("ctx-c".to_owned(), 5, 8, false),
        MultiPartsV1UploaderUploadedPart::new("ctx-a".to_owned(), 4, 0, true),
        MultiPartsV1UploaderUploadedPart::new("ctx-b".to_owned(), 4, 4, false),
    ];
    assert_eq!(MultiPartsV1Uploader::<()>::get_file_size_from_uploaded_parts(&parts), 13);
    assert_eq!(parts[1].size(), 4);
    assert_eq!(parts[1].offset(), 0);
    assert!(parts[1].resumed());
    assert_eq!(
        MultiPartsV1Uploader::<()>::make_mkfile_request_body_from_uploaded_parts(parts),
        "ctx-a,ctx-b,ctx-c"
    );
    assert_eq!(
        MultiPartsV1Uploader::<()>::make_mkfile_request_body_from_uploaded_parts(vec![]),
        ""
    );
}

#[test]
fn equal_offsets_keep_their_order() {
    let parts = vec![
        MultiPartsV1UploaderUploadedPart::new("x".to_owned(), 1, 7, false),
        MultiPartsV1UploaderUploadedPart::new("y".to_owned(), 1, 7, false),
        MultiPartsV1UploaderUploadedPart::new("w".to_owned(), 1, 3, false),
    ];
    assert_eq!(
        MultiPartsV1Uploader::<()>::make_mkfile_request_body_from_uploaded_parts(parts),
        "w,x,y"
    );
}

#[test]
fn recorder_header_and_dummy_medium() {
    let h = MultiPartsV1ResumableRecorderHeader::v1();
    assert!(h.is_v1());
    assert!(!MultiPartsV1ResumableRecorderHeader { version: 2 }.is_v1());
    let mut m = DummyResumableRecorderMedium;
    let mut buf = [0u8; 4];
    assert_eq!(m.read(&mut buf), Err(MediumError::Unsupported));
    assert_eq!(m.write(b"abc"), Err(MediumError::Unsupported));
    assert_eq!(m.flush(), Err(MediumError::Unsupported));
}

#[test]
fn cached_values_expire_after_their_lifetime() {
    let mut cache: CachedValue<String> = CachedValue::new();
    assert!(cache.get_fresh(0, 100).is_none());
    cache.store(1000, "token".to_owned());
    assert_eq!(cache.get_fresh(1000, 100).map(|s| s.as_str()), Some("token"));
    assert_eq!(cache.get_fresh(1099, 100).map(|s| s.as_str()), Some("token"));
    assert!(cache.get_fresh(1100, 100).is_none());
    assert_eq!(cache.get_fresh(900, 100).map(|s| s.as_str()), Some("token"));
    assert!(cache.get_fresh(1000, 0).is_none());
}

#[test]
fn dummy_recorder_keeps_nothing() {
    let r = DummyResumableRecorder::new();
    assert_eq!(r.open_for_read(b"key").unwrap_err(), MediumError::Unsupported);
    assert_eq!(r.open_for_append(b"key").unwrap_err(), MediumError::Unsupported);
    assert_eq!(r.open_for_create_new(b"key").unwrap_err(), MediumError::Unsupported);
    assert_eq!(r.delete(b"key"), Err(MediumError::Unsupported));
}

#[test]
fn policies_are_read_into_the_normal_form() {
    let policy = UploadPolicy::from_json(b"{ \"scope\" : \"b:k\",\n \"deadline\": 7 }").unwrap();
    assert_eq!(policy.as_json(), "{\"deadline\":7,\"scope\":\"b:k\"}");
    assert_eq!(policy.bucket().as_deref(), Some("b"));
    assert_eq!(policy.key().as_deref(), Some("k"));
    assert!(UploadPolicy::from_json(b"{not json").is_err());
}

#[test]
fn policies_made_now_end_after_now() {
    let json = UploadPolicyBuilder::new_policy_for_bucket("b".to_owned(), 3600).build().as_json().to_owned();
    let digits: String = json["{\"deadline\":".len()..].chars().take_while(|c| c.is_ascii_digit()).collect();
    let deadline: u64 = digits.parse().unwrap();
    assert!(deadline > 1_600_000_000 + 3600);
}

#[test]
fn token_from_credential_signs_or_passes_the_error() {
    let policy = UploadPolicyBuilder::new_policy_for_bucket_at("b".to_owned(), 1, 0).build();
    let got = get_credential().get(&GetOptions::default());
    let token = token_from_credential(got, &policy).unwrap();
    assert_eq!(token.as_str(), get_credential().sign_with_data(policy.as_json().as_bytes()));
    let err = CredentialGetError { message: "none".to_owned() };
    assert_eq!(token_from_credential(Err(err.clone()), &policy).unwrap_err(), err);
}

#[test]
fn access_key_comes_from_the_credential() {
    let got = get_credential().get(&GetOptions::default());
    assert_eq!(access_key_from(got).unwrap().access_key().as_str(), "abcdefghklmnopq");
    let err = CredentialGetError { message: "none".to_owned() };
    assert_eq!(
        access_key_from(Err(err)).unwrap_err(),
        ParseError::CredentialGetError("none".to_owned())
    );
    let policy = UploadPolicyBuilder::new_policy_for_bucket_at("b".to_owned(), 1, 0).build();
    let provider = FromUploadPolicy::new(policy, get_credential());
    let ak = provider.access_key(&GetAccessKeyOptions::default()).unwrap();
    assert_eq!(ak.access_key().as_str(), "abcdefghklmnopq");
    let bucket = BucketUploadTokenProvider::new("b".to_owned(), 60, get_credential());
    assert_eq!(bucket.access_key(&GetAccessKeyOptions::default()).unwrap().access_key().as_str(), "abcdefghklmnopq");
}
