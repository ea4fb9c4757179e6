use qiniu_sdk::batch_ops::{
    OperationResponse, OperationResponseData, RequestBody as BatchRequestBody,
    ResponseBody as BatchResponseBody,
};
use qiniu_sdk::bucket_list::ResponseBody as BucketsResponseBody;
use qiniu_sdk::bucket_private::RequestBody as PrivateRequestBody;
use qiniu_sdk::bucket_taggings::{
    QueryParams as TaggingsQueryParams, RequestBody as TaggingsRequestBody, TagInfo, Tags,
};
use qiniu_sdk::json::JsonValue;
use qiniu_sdk::multipart_body::{PartInfo, RequestBody as MultipartRequestBody, StringMap};
use qiniu_sdk::objects_query::QueryParams as ObjectsQueryParams;

fn obj(fields: Vec<(&str, JsonValue)>) -> JsonValue {
    JsonValue::Object(fields.into_iter().map(|(k, v)| (k.to_owned(), v)).collect())
}

fn s(x: &str) -> JsonValue {
    JsonValue::Str(x.to_owned())
}

fn pair(k: &str, v: &str) -> (String, Option<String>) {
    (k.to_owned(), Some(v.to_owned()))
}

#[test]
fn json_insert_replaces_in_place_and_appends_new_fields() {
    let mut v = obj(vec![("a", s("1")), ("b", s("2"))]);
    assert_eq!(v.insert("b".to_owned(), JsonValue::from_i64(-3)).and_then(|x| x.into_string()), Some("2".to_owned()));
    assert!(v.insert("c".to_owned(), JsonValue::Bool(true)).is_none());
    match &v {
        JsonValue::Object(entries) => {
            let names: Vec<&str> = entries.iter().map(|e| e.0.as_str()).collect();
            assert_eq!(names, vec!["a", "b", "c"]);
        }
        _ => panic!("not an object"),
    }
    assert_eq!(v.get_i64_field("b"), Some(-3));
    assert_eq!(v.get_u64_field("b"), None);
    assert_eq!(v.get_str_field("a"), Some("1"));
}

#[test]
fn json_integers_by_sign() {
    assert_eq!(JsonValue::from_i64(5).as_u64(), Some(5));
    assert_eq!(JsonValue::from_i64(-5).as_u64(), None);
    assert_eq!(JsonValue::from_u64(u64::MAX).as_i64(), None);
    assert_eq!(JsonValue::from_u64(7).as_i64(), Some(7));
}

#[test]
fn json_setters_change_nothing_but_objects() {
    let mut v = JsonValue::Array(vec![]);
    assert_eq!(v.set_str_field("k".to_owned(), "x".to_owned()), None);
    assert_eq!(v.array_len(), 0);
    assert!(v.get("k").is_none());
}

#[test]
fn part_info_reads_back_what_was_set() {
    let mut part = PartInfo(JsonValue::new_object());
    assert_eq!(part.set_part_number_as_int(3), None);
    assert_eq!(part.get_part_number_as_int(), 3);
    assert_eq!(part.set_part_number_as_uint(4), Some(3));
    assert_eq!(part.get_part_number_as_uint(), 4);
    assert_eq!(part.set_etag_as_str("etag-1".to_owned()), None);
    assert_eq!(part.set_etag_as_str("etag-2".to_owned()), Some("etag-1".to_owned()));
    assert_eq!(part.get_etag_as_str(), "etag-2");
}

#[test]
fn multipart_body_fields() {
    let mut body = MultipartRequestBody(JsonValue::new_object());
    assert_eq!(body.get_file_name_as_str(), None);
    assert_eq!(body.set_file_name_as_str("a.txt".to_owned()), None);
    assert_eq!(body.get_file_name_as_str(), Some("a.txt"));
    assert_eq!(body.set_mime_type_as_str("text/plain".to_owned()), None);
    assert_eq!(body.get_mime_type_as_str(), Some("text/plain"));
    let mut part = PartInfo(JsonValue::new_object());
    part.set_part_number_as_uint(1);
    assert!(body.set_parts(part).is_none());
    assert_eq!(body.get_parts().get_u64_field("partNumber"), Some(1));
    let meta = StringMap(obj(vec![("x-qn-meta-a", s("b"))]));
    assert!(body.set_metadata(meta).is_none());
    assert_eq!(body.get_metadata().and_then(|m| m.get_str_field("x-qn-meta-a")), Some("b"));
    assert!(body.get_custom_vars().is_none());
}

#[test]
fn bucket_list_array_operations() {
    let mut body = BucketsResponseBody::from_names(vec!["a".to_owned(), "b".to_owned()]);
    assert_eq!(body.len(), 2);
    assert!(!body.is_empty());
    body.insert_str(1, "c".to_owned());
    assert_eq!(body.to_str_vec(), vec!["a", "c", "b"]);
    assert_eq!(body.remove_as_str(0), Some("a".to_owned()));
    body.push_str("d".to_owned());
    assert_eq!(body.pop_as_str(), Some("d".to_owned()));
    assert_eq!(body.to_str_vec(), vec!["c", "b"]);
    let mut empty = BucketsResponseBody::from_names(vec![]);
    assert!(empty.is_empty());
    assert_eq!(empty.pop_as_str(), None);
}

#[test]
fn tag_info_and_tags() {
    let mut tag = TagInfo(JsonValue::new_object());
    assert_eq!(tag.set_key_as_str("env".to_owned()), None);
    assert_eq!(tag.set_value_as_str("prod".to_owned()), None);
    assert_eq!(tag.set_value_as_str("test".to_owned()), Some("prod".to_owned()));
    assert_eq!(tag.get_key_as_str(), "env");
    assert_eq!(tag.get_value_as_str(), "test");

    let mut other = TagInfo(JsonValue::new_object());
    other.set_key_as_str("team".to_owned());
    other.set_value_as_str("kodo".to_owned());
    let mut tags = Tags::from_tag_infos(vec![tag]);
    assert_eq!(tags.len(), 1);
    tags.insert_tag_info(0, other);
    let list = tags.to_tag_info_vec();
    assert_eq!(list.len(), 2);
    assert_eq!(list[0].get_str_field("Key"), Some("team"));
    assert_eq!(list[1].get_str_field("Key"), Some("env"));
    let removed = tags.remove_as_tag_info(0);
    assert_eq!(removed.get_key_as_str(), "team");
    let popped = tags.pop_tag_info().unwrap();
    assert_eq!(popped.get_value_as_str(), "test");
    assert!(tags.is_empty());
    assert!(tags.pop_tag_info().is_none());
    tags.push_tag_info(popped);

    let mut body = TaggingsRequestBody(JsonValue::new_object());
    assert!(body.set_tags(tags).is_none());
    assert_eq!(body.get_tags().array_len(), 1);
}

#[test]
fn taggings_query_keeps_one_bucket() {
    let q = TaggingsQueryParams::new()
        .set_bucket_as_str("b1".to_owned())
        .set_bucket_as_str("b2".to_owned());
    assert_eq!(q.build(), vec![("bucket".to_owned(), "b2".to_owned())]);
}

#[test]
fn objects_query_in_order_with_replacement() {
    let q = ObjectsQueryParams::new()
        .set_bucket_as_str("bucket".to_owned())
        .set_limit_as_i32(-5)
        .set_need_parts_as_bool(true)
        .set_limit_as_u16(1000)
        .set_prefix_as_str("dir/".to_owned());
    assert_eq!(
        q.build(),
        vec![
            ("bucket".to_owned(), "bucket".to_owned()),
            ("limit".to_owned(), "1000".to_owned()),
            ("needparts".to_owned(), "true".to_owned()),
            ("prefix".to_owned(), "dir/".to_owned()),
        ]
    );
    let q = ObjectsQueryParams::new()
        .set_limit_as_i64(i64::MIN)
        .set_need_parts_as_bool(false)
        .set_marker_as_str("m".to_owned())
        .set_delimiter_as_str("/".to_owned());
    assert_eq!(
        q.build(),
        vec![
            ("limit".to_owned(), "-9223372036854775808".to_owned()),
            ("needparts".to_owned(), "false".to_owned()),
            ("marker".to_owned(), "m".to_owned()),
            ("delimiter".to_owned(), "/".to_owned()),
        ]
    );
}

#[test]
fn private_body_pairs_in_order() {
    let body = PrivateRequestBody::new()
        .append_pair("x".to_owned(), "y".to_owned())
        .set_is_private_as_i8(1)
        .set_bucket_as_str("b".to_owned());
    assert_eq!(body.build(), vec![pair("bucket", "b"), pair("private", "1"), pair("x", "y")]);
    let body = PrivateRequestBody::new().set_is_private_as_usize(0);
    assert_eq!(body.build(), vec![pair("private", "0")]);
    assert_eq!(PrivateRequestBody::new().set_is_private_as_i64(-12).build(), vec![pair("private", "-12")]);
    assert!(PrivateRequestBody::new().build().is_empty());
}

#[test]
fn batch_body_puts_operations_first() {
    let body = BatchRequestBody::new()
        .append_pair("k".to_owned(), "v".to_owned())
        .append_operations_as_str("stat/YTpi".to_owned())
        .append_operations_as_str("delete/YTpj".to_owned());
    assert_eq!(
        body.build(),
        vec![pair("op", "stat/YTpi"), pair("op", "delete/YTpj"), pair("k", "v")]
    );
}

#[test]
fn batch_response_fields() {
    let mut data = OperationResponseData(JsonValue::new_object());
    assert_eq!(data.set_size_as_u64(1024), None);
    assert_eq!(data.get_size_as_i64(), Some(1024));
    assert_eq!(data.set_hash_as_str("FhJ".to_owned()), None);
    assert_eq!(data.get_hash_as_str(), Some("FhJ"));
    assert_eq!(data.set_type_as_i64(-1), None);
    assert_eq!(data.get_type_as_u64(), None);
    assert_eq!(data.get_type_as_i64(), Some(-1));
    assert_eq!(data.get_mime_type_as_str(), None);
    assert_eq!(data.get_put_time_as_i64(), None);
    assert_eq!(data.set_md_5_as_str("d41d".to_owned()), None);
    assert_eq!(data.get_md_5_as_str(), Some("d41d"));
    assert_eq!(data.set_transition_to_archive_time_as_u64(7), None);
    assert_eq!(data.set_transition_to_archive_time_as_u64(8), Some(7));
    assert_eq!(data.0.get_u64_field("transitionToARCHIVE"), Some(8));

    let mut not_object = OperationResponseData(JsonValue::Null);
    assert_eq!(not_object.set_error_as_str("e".to_owned()), None);
    assert_eq!(not_object.get_error_as_str(), None);

    let mut response = OperationResponse(JsonValue::new_object());
    assert_eq!(response.set_code_as_i64(200), None);
    assert_eq!(response.get_code_as_u64(), 200);
    assert_eq!(response.set_code_as_u64(612), Some(200));
    assert_eq!(response.get_code_as_i64(), 612);
    assert!(response.get_data().is_none());
    assert!(response.set_data(data).is_none());
    assert_eq!(response.get_data().and_then(|d| d.get_str_field("hash")), Some("FhJ"));

    let mut body = BatchResponseBody::from_operation_responses(vec![response]);
    assert_eq!(body.len(), 1);
    let mut second = OperationResponse(JsonValue::new_object());
    second.set_code_as_u64(404);
    body.insert_operation_response(0, second);
    let list = body.to_operation_response_vec();
    assert_eq!(list[0].get_u64_field("code"), Some(404));
    assert_eq!(list[1].get_u64_field("code"), Some(612));
    let removed = body.remove_as_operation_response(0);
    assert_eq!(removed.get_code_as_u64(), 404);
    body.push_operation_response(removed);
    assert_eq!(body.pop_operation_response().unwrap().get_code_as_u64(), 404);
    assert_eq!(body.pop_operation_response().unwrap().get_code_as_u64(), 612);
    assert!(body.is_empty());
}
