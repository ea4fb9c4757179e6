//! Multipart upload, version 1 (`mkblk` / `mkfile`): the parts uploaded,
//! the size of the file they make, and the `mkfile` request body that lists
//! their contexts in offset order.

use vstd::prelude::*;
use vstd::string::*;

verus! {

/// The parameters of the object being uploaded.
#[derive(Debug, Clone, Default)]
pub struct ObjectParams {
    pub object_name: Option<String>,
    pub file_name: Option<String>,
    pub content_type: Option<String>,
}

/// Parts initialized for upload.
pub trait InitializedParts {
    /// The parameters of the object.
    fn params(&self) -> &ObjectParams;
}

/// A part that was uploaded.
pub trait UploadedPart {
    /// The size of the part (never 0).
    fn size(&self) -> u64;

    /// The offset of the part in the file.
    fn offset(&self) -> u64;

    /// The part was recovered from a record of an earlier upload.
    fn resumed(&self) -> bool;
}

/// A part uploaded by `mkblk`: its context, size and offset.
#[derive(Debug, Clone)]
pub struct MultiPartsV1UploaderUploadedPart {
    ctx: String,
    uploaded_size: u64,
    offset: u64,
    resumed: bool,
}

impl View for MultiPartsV1UploaderUploadedPart {
    /// Offset, context, size, resumed.
    type V = (u64, Seq<char>, u64, bool);

    closed spec fn view(&self) -> Self::V {
        (self.offset, self.ctx@, self.uploaded_size, self.resumed)
    }
}

impl MultiPartsV1UploaderUploadedPart {
    /// A part of `uploaded_size` bytes (not 0) at `offset`, with the context
    /// that `mkblk` answered.
    pub fn new(ctx: String, uploaded_size: u64, offset: u64, resumed: bool) -> (p: Self)
        requires
            uploaded_size > 0,
        ensures
            p@ == (offset, ctx@, uploaded_size, resumed),
    {
        MultiPartsV1UploaderUploadedPart { ctx, uploaded_size, offset, resumed }
    }

    /// The context that `mkblk` answered.
    pub fn ctx(&self) -> (c: &str)
        ensures
            c@ == self@.1,
    {
        self.ctx.as_str()
    }
}

impl UploadedPart for MultiPartsV1UploaderUploadedPart {
    fn size(&self) -> (s: u64)
        ensures
            s == self@.2,
    {
        self.uploaded_size
    }

    fn offset(&self) -> (o: u64)
        ensures
            o == self@.0,
    {
        self.offset
    }

    fn resumed(&self) -> (r: bool)
        ensures
            r == self@.3,
    {
        self.resumed
    }
}

/// The sum of the sizes of parts.
pub open spec fn total_size(parts: Seq<(u64, Seq<char>, u64, bool)>) -> nat
    decreases parts.len(),
{
    if parts.len() == 0 {
        0
    } else {
        total_size(parts.drop_last()) + parts.last().2 as nat
    }
}

/// Inserts `x` after the last element whose offset is not greater than its
/// own, keeping the order of equal offsets.
pub open spec fn insert_by_offset(s: Seq<(u64, Seq<char>)>, x: (u64, Seq<char>)) -> Seq<(u64, Seq<char>)>
    decreases s.len(),
{
    if s.len() == 0 {
        seq![x]
    } else if s.last().0 <= x.0 {
        s.push(x)
    } else {
        insert_by_offset(s.drop_last(), x).push(s.last())
    }
}

/// Offsets and contexts, sorted by offset; of equal offsets the earlier
/// comes first.
pub open spec fn sorted_by_offset(s: Seq<(u64, Seq<char>)>) -> Seq<(u64, Seq<char>)>
    decreases s.len(),
{
    if s.len() == 0 {
        seq![]
    } else {
        insert_by_offset(sorted_by_offset(s.drop_last()), s.last())
    }
}

/// Contexts joined with `,`.
pub open spec fn joined_ctx(s: Seq<(u64, Seq<char>)>) -> Seq<char>
    decreases s.len(),
{
    if s.len() == 0 {
        seq![]
    } else if s.len() == 1 {
        s[0].1
    } else {
        joined_ctx(s.drop_last()) + seq![','] + s.last().1
    }
}

/// The offset and context of each part.
pub open spec fn offsets_and_ctx(parts: Seq<MultiPartsV1UploaderUploadedPart>) -> Seq<(u64, Seq<char>)> {
    parts.map_values(|p: MultiPartsV1UploaderUploadedPart| (p@.0, p@.1))
}

/// The views of parts.
pub open spec fn part_views(parts: Seq<MultiPartsV1UploaderUploadedPart>) -> Seq<(u64, Seq<char>, u64, bool)> {
    parts.map_values(|p: MultiPartsV1UploaderUploadedPart| p@)
}

proof fn lemma_insert_by_offset_at(s: Seq<(u64, Seq<char>)>, x: (u64, Seq<char>), j: int)
    requires
        0 <= j <= s.len(),
        forall|i: int| j <= i < s.len() ==> #[trigger] s[i].0 > x.0,
        j > 0 ==> s[j - 1].0 <= x.0,
    ensures
        insert_by_offset(s, x) == s.insert(j, x),
    decreases s.len(),
{
    if s.len() == 0 {
        assert(s.insert(j, x) =~= seq![x]);
    } else if j == s.len() {
        assert(s.last() == s[j - 1]);
        assert(s.insert(j, x) =~= s.push(x));
    } else {
        let rest = s.drop_last();
        assert(s.last() == s[s.len() - 1]);
        assert forall|i: int| j <= i < rest.len() implies #[trigger] rest[i].0 > x.0 by {
            assert(rest[i] == s[i]);
        }
        if j > 0 {
            assert(rest[j - 1] == s[j - 1]);
        }
        lemma_insert_by_offset_at(rest, x, j);
        assert(s.insert(j, x) =~= rest.insert(j, x).push(s.last()));
    }
}

/// Specification-level sortedness: offsets never decrease.
pub open spec fn offsets_ascend(s: Seq<(u64, Seq<char>)>) -> bool {
    forall|i: int, j: int| 0 <= i <= j < s.len() ==> #[trigger] s[i].0 <= #[trigger] s[j].0
}

proof fn lemma_insert_by_offset_keeps(s: Seq<(u64, Seq<char>)>, x: (u64, Seq<char>))
    requires
        offsets_ascend(s),
    ensures
        offsets_ascend(insert_by_offset(s, x)),
        insert_by_offset(s, x).to_multiset() == s.to_multiset().insert(x),
    decreases s.len(),
{
    broadcast use vstd::seq_lib::group_to_multiset_ensures;
    if s.len() > 0 && s.last().0 > x.0 {
        let rest = s.drop_last();
        assert forall|i: int, j: int| 0 <= i <= j < rest.len() implies #[trigger] rest[i].0
            <= #[trigger] rest[j].0 by {
            assert(rest[i] == s[i] && rest[j] == s[j]);
        }
        lemma_insert_by_offset_keeps(rest, x);
        let t = insert_by_offset(rest, x);
        let r = t.push(s.last());
        assert(s.last() == s[s.len() - 1]);
        assert forall|i: int| 0 <= i < t.len() implies #[trigger] t[i].0 <= s.last().0 by {
            assert(t.to_multiset().count(t[i]) > 0);
            assert(t.contains(t[i]));
            if t[i] != x {
                assert(rest.to_multiset().count(t[i]) > 0);
                assert(rest.contains(t[i]));
                let k = choose|k: int| 0 <= k < rest.len() && rest[k] == t[i];
                assert(rest[k] == s[k]);
            }
        }
        assert forall|i: int, j: int| 0 <= i <= j < r.len() implies #[trigger] r[i].0
            <= #[trigger] r[j].0 by {
            if j == t.len() {
                if i < t.len() {
                    assert(r[i] == t[i]);
                }
            } else {
                assert(r[i] == t[i] && r[j] == t[j]);
            }
        }
        assert(s =~= rest.push(s.last()));
    } else if s.len() > 0 {
        let r = s.push(x);
        assert forall|i: int, j: int| 0 <= i <= j < r.len() implies #[trigger] r[i].0
            <= #[trigger] r[j].0 by {
            assert(s.last() == s[s.len() - 1]);
            if j == s.len() {
                if i < s.len() {
                    assert(r[i] == s[i]);
                }
            } else {
                assert(r[i] == s[i] && r[j] == s[j]);
            }
        }
    } else {
        assert(seq![x].to_multiset() =~= Seq::<(u64, Seq<char>)>::empty().to_multiset().insert(x)) by {
            assert(seq![x] =~= Seq::<(u64, Seq<char>)>::empty().push(x));
        }
    }
}

/// Sorting by offset orders the offsets and keeps every part: the `mkfile`
/// body lists each context once, in offset order.
pub proof fn sorting_by_offset_orders_and_keeps(s: Seq<(u64, Seq<char>)>)
    ensures
        offsets_ascend(sorted_by_offset(s)),
        sorted_by_offset(s).to_multiset() == s.to_multiset(),
    decreases s.len(),
{
    broadcast use vstd::seq_lib::group_to_multiset_ensures;
    if s.len() > 0 {
        sorting_by_offset_orders_and_keeps(s.drop_last());
        lemma_insert_by_offset_keeps(sorted_by_offset(s.drop_last()), s.last());
        assert(s =~= s.drop_last().push(s.last()));
    }
}

/// Uploads a file in parts by `mkblk` and makes it by `mkfile`.
#[derive(Debug)]
pub struct MultiPartsV1Uploader<R> {
    resumable_recorder: R,
}

impl<R> MultiPartsV1Uploader<R> {
    /// The recorder of parts for resuming.
    pub closed spec fn recorder(self) -> R {
        self.resumable_recorder
    }

    /// An uploader that records its parts with `resumable_recorder`.
    pub fn new(resumable_recorder: R) -> (u: Self)
        ensures
            u.recorder() == resumable_recorder,
    {
        MultiPartsV1Uploader { resumable_recorder }
    }

    /// The size of the file that the parts make: the sum of their sizes.
    pub fn get_file_size_from_uploaded_parts(parts: &[MultiPartsV1UploaderUploadedPart]) -> (n: u64)
        requires
            total_size(part_views(parts@)) <= u64::MAX,
        ensures
            n == total_size(part_views(parts@)),
    {
        let ghost v = part_views(parts@);
        let mut n: u64 = 0;
        let mut i: usize = 0;
        while i < parts.len()
            invariant
                i <= parts.len(),
                v == part_views(parts@),
                total_size(v) <= u64::MAX,
                n == total_size(v.take(i as int)),
            decreases parts.len() - i,
        {
            proof {
                assert(v.take(i + 1).drop_last() =~= v.take(i as int));
                assert(v.take(i + 1).last() == v[i as int]);
                lemma_total_size_prefix(v, i + 1);
            }
            n = n + parts[i].uploaded_size;
            i = i + 1;
        }
        proof {
            assert(v.take(parts.len() as int) =~= v);
        }
        n
    }

    /// The `mkfile` request body: the contexts of the parts, sorted by
    /// offset, joined with `,`.
    pub fn make_mkfile_request_body_from_uploaded_parts(parts: Vec<MultiPartsV1UploaderUploadedPart>) -> (body: String)
        ensures
            body@ == joined_ctx(sorted_by_offset(offsets_and_ctx(parts@))),
    {
        let ghost src = offsets_and_ctx(parts@);
        let mut sorted: Vec<(u64, &str)> = Vec::new();
        let mut i: usize = 0;
        while i < parts.len()
            invariant
                i <= parts.len(),
                src == offsets_and_ctx(parts@),
                sorted@.map_values(|e: (u64, &str)| (e.0, e.1@)) == sorted_by_offset(src.take(i as int)),
            decreases parts.len() - i,
        {
            let x = (parts[i].offset, parts[i].ctx.as_str());
            let ghost before = sorted@.map_values(|e: (u64, &str)| (e.0, e.1@));
            let mut j: usize = sorted.len();
            while j > 0 && sorted[j - 1].0 > x.0
                invariant
                    j <= sorted.len(),
                    forall|k: int| j <= k < sorted.len() ==> #[trigger] sorted@[k].0 > x.0,
                decreases j,
            {
                j = j - 1;
            }
            sorted.insert(j, x);
            proof {
                let xv = (x.0, x.1@);
                assert(src[i as int] == xv);
                lemma_insert_by_offset_at(before, xv, j as int);
                assert(sorted@.map_values(|e: (u64, &str)| (e.0, e.1@)) =~= before.insert(j as int, xv));
                assert(src.take(i + 1).drop_last() =~= src.take(i as int));
                assert(src.take(i + 1).last() == xv);
            }
            i = i + 1;
        }
        proof {
            assert(src.take(parts.len() as int) =~= src);
        }
        let ghost sv = sorted@.map_values(|e: (u64, &str)| (e.0, e.1@));
        let mut body = String::new();
        let mut k: usize = 0;
        while k < sorted.len()
            invariant
                k <= sorted.len(),
                sv == sorted@.map_values(|e: (u64, &str)| (e.0, e.1@)),
                body@ == joined_ctx(sv.take(k as int)),
            decreases sorted.len() - k,
        {
            proof {
                assert(sv.take(k + 1).drop_last() =~= sv.take(k as int));
                assert(sv.take(k + 1).last() == sv[k as int]);
                reveal_strlit(",");
            }
            if k > 0 {
                body.append(",");
            } else {
                assert(sv.take(1) =~= seq![sv[0]]);
                assert(body@ =~= Seq::<char>::empty());
            }
            body.append(sorted[k].1);
            proof {
                if k == 0 {
                    assert(body@ =~= joined_ctx(sv.take(1)));
                }
            }
            k = k + 1;
        }
        proof {
            assert(sv.take(sorted.len() as int) =~= sv);
        }
        body
    }
}

proof fn lemma_total_size_prefix(v: Seq<(u64, Seq<char>, u64, bool)>, i: int)
    requires
        0 <= i <= v.len(),
    ensures
        total_size(v.take(i)) <= total_size(v),
    decreases v.len() - i,
{
    if i < v.len() {
        lemma_total_size_prefix(v, i + 1);
        assert(v.take(i + 1).drop_last() =~= v.take(i));
    } else {
        assert(v.take(i) =~= v);
    }
}

/// The header of the records of a resumable v1 upload.
#[derive(Debug, Copy, Clone, PartialEq, Eq, Structural)]
pub struct MultiPartsV1ResumableRecorderHeader {
    pub version: u8,
}

impl MultiPartsV1ResumableRecorderHeader {
    /// The header of version 1.
    pub fn v1() -> (h: Self)
        ensures
            h.version == 1,
    {
        MultiPartsV1ResumableRecorderHeader { version: 1 }
    }

    /// The records are of version 1.
    pub fn is_v1(&self) -> (b: bool)
        ensures
            b == (self.version == 1),
    {
        self.version == 1
    }
}

/// Why a medium could not be used.
#[derive(Debug, Copy, Clone, PartialEq, Eq, Structural)]
pub enum MediumError {
    /// The medium does not support the operation.
    Unsupported,
}

/// A medium that records nothing: reading, writing and flushing all fail
/// as unsupported.
#[derive(Debug, Clone, Copy)]
pub struct DummyResumableRecorderMedium;

impl DummyResumableRecorderMedium {
    /// Reading fails.
    pub fn read(&mut self, buf: &mut [u8]) -> (r: Result<usize, MediumError>)
        ensures
            r == Err::<usize, MediumError>(MediumError::Unsupported),
            final(buf)@ == old(buf)@,
    {
        Err(MediumError::Unsupported)
    }

    /// Writing fails.
    pub fn write(&mut self, buf: &[u8]) -> (r: Result<usize, MediumError>)
        ensures
            r == Err::<usize, MediumError>(MediumError::Unsupported),
    {
        Err(MediumError::Unsupported)
    }

    /// Flushing fails.
    pub fn flush(&mut self) -> (r: Result<(), MediumError>)
        ensures
            r == Err::<(), MediumError>(MediumError::Unsupported),
    {
        Err(MediumError::Unsupported)
    }
}

/// Where the records of resumable uploads are kept, by the key of the
/// uploaded data.
pub trait ResumableRecorder {
    /// A medium to read records from.
    type ReadOnlyMedium;

    /// A medium to append records to.
    type AppendOnlyMedium;

    /// Opens the records of `source_key` for reading.
    fn open_for_read(&self, source_key: &[u8]) -> Result<Self::ReadOnlyMedium, MediumError>;

    /// Opens the records of `source_key` for appending.
    fn open_for_append(&self, source_key: &[u8]) -> Result<Self::AppendOnlyMedium, MediumError>;

    /// Opens new records of `source_key`.
    fn open_for_create_new(&self, source_key: &[u8]) -> Result<Self::AppendOnlyMedium, MediumError>;

    /// Deletes the records of `source_key`.
    fn delete(&self, source_key: &[u8]) -> Result<(), MediumError>;
}

/// A recorder that keeps nothing: every operation fails as unsupported, so
/// no upload is ever resumed.
#[derive(Debug, Clone, Copy, Default)]
pub struct DummyResumableRecorder;

impl DummyResumableRecorder {
    /// The recorder.
    pub fn new() -> (r: Self)
        ensures
            r == DummyResumableRecorder,
    {
        DummyResumableRecorder
    }
}

impl ResumableRecorder for DummyResumableRecorder {
    type ReadOnlyMedium = DummyResumableRecorderMedium;

    type AppendOnlyMedium = DummyResumableRecorderMedium;

    fn open_for_read(&self, _source_key: &[u8]) -> (r: Result<DummyResumableRecorderMedium, MediumError>)
        ensures
            r == Err::<DummyResumableRecorderMedium, MediumError>(MediumError::Unsupported),
    {
        Err(MediumError::Unsupported)
    }

    fn open_for_append(&self, _source_key: &[u8]) -> (r: Result<DummyResumableRecorderMedium, MediumError>)
        ensures
            r == Err::<DummyResumableRecorderMedium, MediumError>(MediumError::Unsupported),
    {
        Err(MediumError::Unsupported)
    }

    fn open_for_create_new(&self, _source_key: &[u8]) -> (r: Result<DummyResumableRecorderMedium, MediumError>)
        ensures
            r == Err::<DummyResumableRecorderMedium, MediumError>(MediumError::Unsupported),
    {
        Err(MediumError::Unsupported)
    }

    fn delete(&self, _source_key: &[u8]) -> (r: Result<(), MediumError>)
        ensures
            r == Err::<(), MediumError>(MediumError::Unsupported),
    {
        Err(MediumError::Unsupported)
    }
}

} // verus!
