//! The path of the API call that completes a multipart upload:
//! `[bucket]/objects/<object or ~>[/uploads/<upload id>]/<extra segments>`,
//! with the object name in URL-safe Base64.

use crate::base64::{urlsafe, urlsafe_encoding};
use crate::text::ascii_chars;
use vstd::prelude::*;
use vstd::string::*;
use vstd::utf8::*;

verus! {

/// The view of an optional string.
pub open spec fn opt_chars(s: Option<String>) -> Option<Seq<char>> {
    match s {
        Some(x) => Some(x@),
        None => None,
    }
}

/// The segments of the path: the bucket where it is set, `objects`, the
/// object (or `~`), `uploads` and the upload ID where it is set, then the
/// extra segments.
pub open spec fn path_segments(
    bucket_name: Option<Seq<char>>,
    object_name: Option<Seq<char>>,
    upload_id: Option<Seq<char>>,
    extended: Seq<Seq<char>>,
) -> Seq<Seq<char>> {
    (match bucket_name {
        Some(b) => seq![b],
        None => seq![],
    }) + seq![
        "objects"@,
        match object_name {
            Some(o) => o,
            None => "~"@,
        },
    ] + (match upload_id {
        Some(u) => seq!["uploads"@, u],
        None => seq![],
    }) + extended
}

/// The path parameters of the call.
#[derive(Debug, Clone, Default)]
pub struct PathParams {
    bucket_name: Option<String>,
    object_name: Option<String>,
    upload_id: Option<String>,
    extended_segments: Vec<String>,
}

impl View for PathParams {
    type V = (Option<Seq<char>>, Option<Seq<char>>, Option<Seq<char>>, Seq<Seq<char>>);

    closed spec fn view(&self) -> Self::V {
        (
            opt_chars(self.bucket_name),
            opt_chars(self.object_name),
            opt_chars(self.upload_id),
            self.extended_segments@.map_values(|s: String| s@),
        )
    }
}

impl PathParams {
    /// No parameter set.
    pub fn new() -> (p: Self)
        ensures
            p@ == (None::<Seq<char>>, None::<Seq<char>>, None::<Seq<char>>, Seq::<Seq<char>>::empty()),
    {
        let p = PathParams {
            bucket_name: None,
            object_name: None,
            upload_id: None,
            extended_segments: Vec::new(),
        };
        assert(p@.3 =~= Seq::<Seq<char>>::empty());
        p
    }

    /// Appends a segment after the others.
    pub fn push_segment(self, segment: String) -> (p: Self)
        ensures
            p@ == (self@.0, self@.1, self@.2, self@.3.push(segment@)),
    {
        let mut p = self;
        let ghost before = p.extended_segments@;
        p.extended_segments.push(segment);
        assert(p.extended_segments@.map_values(|s: String| s@) =~= before.map_values(
            |s: String| s@,
        ).push(segment@));
        p
    }

    /// Sets the bucket name.
    pub fn set_bucket_name_as_str(self, value: String) -> (p: Self)
        ensures
            p@ == (Some(value@), self@.1, self@.2, self@.3),
    {
        PathParams { bucket_name: Some(value), ..self }
    }

    /// Sets the object name; it is written in URL-safe Base64.
    pub fn set_object_name_as_str(self, value: String) -> (p: Self)
        ensures
            p@ == (
                self@.0,
                Some(ascii_chars(urlsafe_encoding(encode_utf8(value@)))),
                self@.2,
                self@.3,
            ),
    {
        let encoded = urlsafe(value.as_str().as_bytes());
        PathParams { object_name: Some(encoded), ..self }
    }

    /// Sets the upload ID of the multipart upload.
    pub fn set_upload_id_as_str(self, value: String) -> (p: Self)
        ensures
            p@ == (self@.0, self@.1, Some(value@), self@.3),
    {
        PathParams { upload_id: Some(value), ..self }
    }

    /// The segments of the path.
    pub fn build(self) -> (segments: Vec<String>)
        ensures
            segments@.map_values(|s: String| s@) == path_segments(self@.0, self@.1, self@.2, self@.3),
    {
        let ghost v = self@;
        let mut all: Vec<String> = Vec::new();
        if let Some(segment) = self.bucket_name {
            all.push(segment);
        }
        all.push("objects".to_owned());
        match self.object_name {
            Some(o) => all.push(o),
            None => all.push("~".to_owned()),
        }
        if let Some(segment) = self.upload_id {
            all.push("uploads".to_owned());
            all.push(segment);
        }
        let ghost head = all@.map_values(|s: String| s@);
        proof {
            reveal_strlit("objects");
            reveal_strlit("~");
            reveal_strlit("uploads");
            assert(head =~= path_segments(v.0, v.1, v.2, Seq::empty()));
        }
        let ext = self.extended_segments;
        let ghost start = all@;
        let mut i: usize = 0;
        while i < ext.len()
            invariant
                i <= ext.len(),
                all@ == start + ext@.take(i as int),
            decreases ext.len() - i,
        {
            all.push(ext[i].clone());
            proof {
                assert(all@ =~= start + ext@.take(i + 1));
            }
            i = i + 1;
        }
        proof {
            assert(ext@.take(ext.len() as int) =~= ext@);
            assert(all@.map_values(|s: String| s@) =~= path_segments(v.0, v.1, v.2, v.3));
        }
        all
    }
}

} // verus!
