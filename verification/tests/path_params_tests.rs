use qiniu_sdk::path_params::PathParams;

#[test]
fn path_params_build_all_segments() {
    let segments = PathParams::new()
        .set_bucket_name_as_str("test-bucket".to_owned())
        .set_object_name_as_str("test-key".to_owned())
        .set_upload_id_as_str("upload-1".to_owned())
        .push_segment("extra".to_owned())
        .build();
    assert_eq!(
        segments,
        vec!["test-bucket", "objects", "dGVzdC1rZXk=", "uploads", "upload-1", "extra"]
    );
}

#[test]
fn path_params_without_object_use_tilde() {
    let segments = PathParams::new().build();
    assert_eq!(segments, vec!["objects", "~"]);
    let segments = PathParams::new()
        .push_segment("a".to_owned())
        .push_segment("b".to_owned())
        .set_bucket_name_as_str("b1".to_owned())
        .build();
    assert_eq!(segments, vec!["b1", "objects", "~", "a", "b"]);
}

#[test]
fn object_name_is_url_safe_base64() {
    let segments = PathParams::new().set_object_name_as_str("???>".to_owned()).build();
    assert_eq!(segments, vec!["objects", "Pz8_Pg=="]);
}
