use qiniu_sdk::resumable_records::{
    could_recover, records_to_start_from, uploaded_part_from_record, ResumableRecord, ResumableRecords,
};
use qiniu_sdk::upload_parts::UploadedPart;

fn record(offset: u64, size: u64, ctx: &str, at: u64, sha1: &str) -> ResumableRecord {
    ResumableRecord {
        offset,
        size,
        ctx: ctx.to_owned(),
        uploaded_timestamp: at,
        base64ed_sha1: sha1.to_owned(),
    }
}

#[test]
fn later_records_replace_earlier_ones_and_take_removes() {
    let mut records = ResumableRecords::from_records(vec![
        record(0, 4, "ctx-a", 100, "s1"),
        record(4, 4, "ctx-b", 100, "s2"),
        record(0, 4, "ctx-c", 200, "s3"),
    ]);
    let r = records.take(0).unwrap();
    assert_eq!(r.ctx, "ctx-c");
    assert!(records.take(0).is_none());
    assert_eq!(records.take(4).unwrap().ctx, "ctx-b");
    assert!(records.take(8).is_none());
    records.extend(vec![record(8, 2, "ctx-d", 1, "s4")]);
    assert_eq!(records.take(8).unwrap().size, 2);
}

#[test]
fn persist_writes_the_header_once() {
    let mut records = ResumableRecords::new();
    assert_eq!(records.persist(b"{\"ver\":1}", b"{\"off\":0}"), None);
    records.set_medium_for_append(false);
    assert_eq!(
        records.persist(b"{\"ver\":1}", b"{\"off\":0}").unwrap(),
        b"{\"ver\":1}\n{\"off\":0}\n".to_vec()
    );
    assert_eq!(
        records.persist(b"{\"ver\":1}", b"{\"off\":4}").unwrap(),
        b"{\"off\":4}\n".to_vec()
    );
    let mut resumed = ResumableRecords::new();
    resumed.set_medium_for_append(true);
    assert_eq!(resumed.persist(b"H", b"R").unwrap(), b"R\n".to_vec());
}

#[test]
fn a_record_recovers_only_a_matching_fresh_block() {
    let rec = || Some(record(8, 4, "ctx", 1000, "sha"));
    let p = could_recover(rec(), 8, 4, 1500, 600, Some("sha")).unwrap();
    assert_eq!(p.ctx(), "ctx");
    assert_eq!(p.offset(), 8);
    assert_eq!(p.size(), 4);
    assert!(p.resumed());
    assert!(could_recover(rec(), 8, 5, 1500, 600, Some("sha")).is_none());
    assert!(could_recover(rec(), 8, 4, 1600, 600, Some("sha")).is_none());
    assert!(could_recover(rec(), 8, 4, 1599, 600, Some("sha")).is_some());
    assert!(could_recover(rec(), 8, 4, 1500, 600, Some("other")).is_none());
    assert!(could_recover(rec(), 8, 4, 1500, 600, None).is_none());
    assert!(could_recover(None, 8, 4, 1500, 600, Some("sha")).is_none());
    assert!(could_recover(rec(), 8, 4, 1000, 0, Some("sha")).is_none());
    assert!(could_recover(rec(), 8, 4, 999, 0, Some("sha")).is_some());
}

#[test]
fn a_new_record_makes_a_part_not_resumed() {
    let p = uploaded_part_from_record(record(16, 3, "c", 0, "s"));
    assert_eq!((p.offset(), p.size(), p.resumed(), p.ctx()), (16, 3, false, "c"));
}

#[test]
fn an_upload_starts_from_recovered_or_fresh_records() {
    let mut none = records_to_start_from(false, Some(ResumableRecords::from_records(vec![record(0, 1, "c", 0, "s")])));
    assert!(none.take(0).is_none());
    assert_eq!(none.persist(b"H", b"R"), None);
    let mut fresh = records_to_start_from(true, None);
    assert_eq!(fresh.persist(b"H", b"R").unwrap(), b"H\nR\n".to_vec());
    let mut recovered = ResumableRecords::from_records(vec![record(4, 2, "c", 0, "s")]);
    recovered.set_medium_for_append(true);
    let mut kept = records_to_start_from(true, Some(recovered));
    assert_eq!(kept.persist(b"H", b"R").unwrap(), b"R\n".to_vec());
    assert_eq!(kept.take(4).unwrap().ctx, "c");
}
