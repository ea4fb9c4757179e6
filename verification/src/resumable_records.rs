//! The records of a resumable v1 upload: one record per uploaded block,
//! found again by the block's offset. A record recovers its block when the
//! size and the SHA-1 of the data still match and it has not expired. The
//! records are appended to a medium as lines: a header line first, then one
//! line per record.

use crate::upload_parts::MultiPartsV1UploaderUploadedPart;
use std::collections::HashMap;
use vstd::prelude::*;

verus! {

broadcast use vstd::std_specs::hash::group_hash_axioms;

/// What is recorded of an uploaded block.
#[derive(Debug)]
pub struct ResumableRecord {
    /// Where the block starts in the data.
    pub offset: u64,
    /// The size of the block, in bytes.
    pub size: u64,
    /// The context that `mkblk` answered.
    pub ctx: String,
    /// When the block was uploaded, in seconds since the Unix epoch.
    pub uploaded_timestamp: u64,
    /// The URL-safe base64 of the SHA-1 of the block.
    pub base64ed_sha1: String,
}

/// The map of records after adding `records` in order: a later record of an
/// offset replaces an earlier one.
pub open spec fn with_records(m: Map<u64, ResumableRecord>, records: Seq<ResumableRecord>) -> Map<
    u64,
    ResumableRecord,
>
    decreases records.len(),
{
    if records.len() == 0 {
        m
    } else {
        with_records(m, records.drop_last()).insert(records.last().offset, records.last())
    }
}

/// Whether a record still stands for the block of `part_size` bytes whose
/// SHA-1 was read as `sha1`, at `now` seconds with records kept for `ttl`
/// seconds.
pub open spec fn record_recovers(record: ResumableRecord, part_size: u64, now: u64, ttl: u64, sha1: Option<Seq<char>>) -> bool {
    &&& record.size == part_size
    &&& record.uploaded_timestamp + ttl > now
    &&& sha1 == Some(record.base64ed_sha1@)
}

/// The bytes appended to the medium for one record: the header line where
/// none was written yet, then the record line.
pub open spec fn appended_lines(header_written: bool, header: Seq<u8>, record: Seq<u8>) -> Seq<u8> {
    if header_written {
        record + seq![10u8]
    } else {
        header + seq![10u8] + record + seq![10u8]
    }
}

/// The records found so far, by offset, and the medium that new records are
/// appended to, where there is one (with whether its header is written).
#[derive(Debug)]
pub struct ResumableRecords {
    map: HashMap<u64, ResumableRecord>,
    medium_header_written: Option<bool>,
}

impl View for ResumableRecords {
    type V = Map<u64, ResumableRecord>;

    closed spec fn view(&self) -> Map<u64, ResumableRecord> {
        self.map@
    }
}

impl ResumableRecords {
    /// Whether there is a medium, and whether its header is written.
    pub closed spec fn medium(&self) -> Option<bool> {
        self.medium_header_written
    }

    /// No record and no medium.
    pub fn new() -> (r: Self)
        ensures
            r@ == Map::<u64, ResumableRecord>::empty(),
            r.medium() is None,
    {
        ResumableRecords { map: HashMap::new(), medium_header_written: None }
    }

    /// The records read back, in order; no medium yet.
    pub fn from_records(records: Vec<ResumableRecord>) -> (r: Self)
        ensures
            r@ == with_records(Map::empty(), records@),
            r.medium() is None,
    {
        let mut r = Self::new();
        r.extend(records);
        r
    }

    /// Adds records in order; a later record of an offset replaces an
    /// earlier one.
    pub fn extend(&mut self, records: Vec<ResumableRecord>)
        ensures
            final(self)@ == with_records(old(self)@, records@),
            final(self).medium() == old(self).medium(),
    {
        let ghost all = records@;
        let mut rest = records;
        let n = rest.len();
        let mut taken: Vec<ResumableRecord> = Vec::new();
        while rest.len() > 0
            invariant
                all.len() == rest@.len() + taken@.len(),
                forall|i: int| 0 <= i < rest@.len() ==> (#[trigger] rest@[i]) == all[i],
                forall|i: int| 0 <= i < taken@.len() ==> (#[trigger] taken@[i]) == all[all.len() - 1 - i],
            decreases rest@.len(),
        {
            let x = rest.pop().unwrap();
            taken.push(x);
        }
        let mut done: usize = 0;
        while taken.len() > 0
            invariant
                done + taken@.len() == all.len(),
                all.len() == n,
                forall|i: int| 0 <= i < taken@.len() ==> (#[trigger] taken@[i]) == all[all.len() - 1 - i],
                self@ == with_records(old(self)@, all.take(done as int)),
                self.medium() == old(self).medium(),
            decreases taken@.len(),
        {
            let x = taken.pop().unwrap();
            proof {
                assert(x == all[done as int]);
                assert(all.take(done + 1).drop_last() =~= all.take(done as int));
            }
            let offset = x.offset;
            self.map.insert(offset, x);
            done = done + 1;
        }
        assert(all.take(all.len() as int) =~= all);
    }

    /// Takes the record of the block at `offset`, where there is one.
    pub fn take(&mut self, offset: u64) -> (r: Option<ResumableRecord>)
        ensures
            final(self)@ == old(self)@.remove(offset),
            final(self).medium() == old(self).medium(),
            r == (if old(self)@.contains_key(offset) {
                Some(old(self)@[offset])
            } else {
                None
            }),
    {
        self.map.remove(&offset)
    }

    /// New records go to a medium; `header_written` where it already holds
    /// the header.
    pub fn set_medium_for_append(&mut self, header_written: bool)
        ensures
            final(self)@ == old(self)@,
            final(self).medium() == Some(header_written),
    {
        self.medium_header_written = Some(header_written);
    }

    /// The bytes to append for a record of JSON `record`, where there is a
    /// medium: the header line `header` where none is written yet, then the
    /// record line. After it the header counts as written.
    pub fn persist(&mut self, header: &[u8], record: &[u8]) -> (r: Option<Vec<u8>>)
        ensures
            final(self)@ == old(self)@,
            match old(self).medium() {
                Some(written) => r matches Some(bytes) && bytes@ == appended_lines(written, header@, record@)
                    && final(self).medium() == Some(true),
                None => r is None && final(self).medium() is None,
            },
    {
        match self.medium_header_written {
            Some(written) => {
                let mut buf: Vec<u8> = Vec::new();
                if !written {
                    buf.extend_from_slice(header);
                    buf.push(10u8);
                }
                buf.extend_from_slice(record);
                buf.push(10u8);
                self.medium_header_written = Some(true);
                proof {
                    assert(buf@ =~= appended_lines(written, header@, record@));
                }
                Some(buf)
            },
            None => None,
        }
    }
}

/// The records an upload starts from: none, with no medium, where the data
/// has no source key; else the records recovered from the medium of that
/// key where they could be read; else fresh records, on a new medium whose
/// header is not written yet.
pub fn records_to_start_from(has_source_key: bool, recovered: Option<ResumableRecords>) -> (r: ResumableRecords)
    ensures
        !has_source_key ==> r@ == Map::<u64, ResumableRecord>::empty() && r.medium() is None,
        has_source_key ==> match recovered {
            Some(rec) => r@ == rec@ && r.medium() == rec.medium(),
            None => r@ == Map::<u64, ResumableRecord>::empty() && r.medium() == Some(false),
        },
{
    if !has_source_key {
        return ResumableRecords::new();
    }
    match recovered {
        Some(rec) => rec,
        None => {
            let mut fresh = ResumableRecords::new();
            fresh.set_medium_for_append(false);
            fresh
        },
    }
}

/// The part that a record recovers, where it still stands for the block of
/// `part_size` bytes at `offset` whose SHA-1 was read as `sha1` (`None`
/// where reading the data failed), at `now` seconds with records kept for
/// `ttl` seconds.
pub fn could_recover(
    record: Option<ResumableRecord>,
    offset: u64,
    part_size: u64,
    now: u64,
    ttl: u64,
    sha1: Option<&str>,
) -> (r: Option<MultiPartsV1UploaderUploadedPart>)
    requires
        part_size > 0,
    ensures
        match record {
            Some(rec) => if record_recovers(
                rec,
                part_size,
                now,
                ttl,
                match sha1 {
                    Some(s) => Some(s@),
                    None => None,
                },
            ) {
                r matches Some(p) && p@ == (offset, rec.ctx@, part_size, true)
            } else {
                r is None
            },
            None => r is None,
        },
{
    match record {
        Some(rec) => {
            let fresh = if rec.uploaded_timestamp >= now {
                ttl > 0 || rec.uploaded_timestamp > now
            } else {
                ttl > now - rec.uploaded_timestamp
            };
            let same_sha1 = match sha1 {
                Some(s) => crate::http_error::str_eq(s, rec.base64ed_sha1.as_str()),
                None => false,
            };
            if rec.size == part_size && fresh && same_sha1 {
                Some(MultiPartsV1UploaderUploadedPart::new(rec.ctx, part_size, offset, true))
            } else {
                None
            }
        },
        None => None,
    }
}

/// The part that a block uploaded now makes, from its record.
pub fn uploaded_part_from_record(record: ResumableRecord) -> (p: MultiPartsV1UploaderUploadedPart)
    requires
        record.size > 0,
    ensures
        p@ == (record.offset, record.ctx@, record.size, false),
{
    MultiPartsV1UploaderUploadedPart::new(record.ctx, record.size, record.offset, false)
}

} // verus!
