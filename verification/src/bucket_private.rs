//! The form body of the call that makes a bucket private or public: the
//! bucket, the flag (`0` public, `1` private) and any further pairs.

use crate::text::{ascii_chars, decimal, decimal_string, signed_decimal, signed_decimal_string};
use vstd::prelude::*;

verus! {

/// A pair of a form body: a name and, where there is one, a value.
pub open spec fn form_pair(p: (String, Option<String>)) -> (Seq<char>, Option<Seq<char>>) {
    (
        p.0@,
        match p.1 {
            Some(v) => Some(v@),
            None => None,
        },
    )
}

/// The pairs of a form body, each by its text.
pub open spec fn form_pairs(v: Seq<(String, Option<String>)>) -> Seq<(Seq<char>, Option<Seq<char>>)> {
    v.map_values(|p: (String, Option<String>)| form_pair(p))
}

/// The pairs that a body builds: the bucket, then the flag, each where it
/// was set, then the further pairs.
pub open spec fn private_body_pairs(
    bucket: Option<Seq<char>>,
    private: Option<Seq<char>>,
    extended: Seq<(Seq<char>, Option<Seq<char>>)>,
) -> Seq<(Seq<char>, Option<Seq<char>>)> {
    let first = match bucket {
        Some(b) => seq![("bucket"@, Some(b))],
        None => Seq::empty(),
    };
    let second = match private {
        Some(p) => seq![("private"@, Some(p))],
        None => Seq::empty(),
    };
    first + second + extended
}

/// The body of the request.
#[derive(Debug)]
pub struct RequestBody {
    bucket: Option<String>,
    is_private: Option<String>,
    extended_pairs: Vec<(String, Option<String>)>,
}

impl RequestBody {
    /// The bucket, where it was set.
    pub closed spec fn bucket_view(&self) -> Option<Seq<char>> {
        match self.bucket {
            Some(b) => Some(b@),
            None => None,
        }
    }

    /// The flag, where it was set.
    pub closed spec fn private_view(&self) -> Option<Seq<char>> {
        match self.is_private {
            Some(p) => Some(p@),
            None => None,
        }
    }

    /// The further pairs.
    pub closed spec fn extended_view(&self) -> Seq<(Seq<char>, Option<Seq<char>>)> {
        form_pairs(self.extended_pairs@)
    }

    /// A body with nothing set.
    pub fn new() -> (b: Self)
        ensures
            b.bucket_view() is None,
            b.private_view() is None,
            b.extended_view() == Seq::<(Seq<char>, Option<Seq<char>>)>::empty(),
    {
        let b = RequestBody { bucket: None, is_private: None, extended_pairs: Vec::new() };
        assert(b.extended_view() =~= Seq::<(Seq<char>, Option<Seq<char>>)>::empty());
        b
    }

    /// Appends a further pair.
    pub fn append_pair(self, key: String, value: String) -> (b: Self)
        ensures
            b.bucket_view() == self.bucket_view(),
            b.private_view() == self.private_view(),
            b.extended_view() == self.extended_view().push((key@, Some(value@))),
    {
        let mut b = self;
        b.extended_pairs.push((key, Some(value)));
        assert(b.extended_view() =~= self.extended_view().push((key@, Some(value@))));
        b
    }

    /// Sets the bucket.
    pub fn set_bucket_as_str(self, value: String) -> (b: Self)
        ensures
            b.bucket_view() == Some(value@),
            b.private_view() == self.private_view(),
            b.extended_view() == self.extended_view(),
    {
        let mut b = self;
        b.bucket = Some(value);
        b
    }

    /// Sets the flag to its decimal text.
    fn set_is_private_text(self, text: String) -> (b: Self)
        ensures
            b.bucket_view() == self.bucket_view(),
            b.private_view() == Some(text@),
            b.extended_view() == self.extended_view(),
    {
        let mut b = self;
        b.is_private = Some(text);
        b
    }

    /// Sets the flag: `0` public, `1` private.
    pub fn set_is_private_as_i8(self, value: i8) -> (b: Self)
        ensures
            b.bucket_view() == self.bucket_view(),
            b.private_view() == Some(signed_decimal(value as int)),
            b.extended_view() == self.extended_view(),
    {
        self.set_is_private_text(signed_decimal_string(value as i64))
    }

    /// Sets the flag: `0` public, `1` private.
    pub fn set_is_private_as_i16(self, value: i16) -> (b: Self)
        ensures
            b.bucket_view() == self.bucket_view(),
            b.private_view() == Some(signed_decimal(value as int)),
            b.extended_view() == self.extended_view(),
    {
        self.set_is_private_text(signed_decimal_string(value as i64))
    }

    /// Sets the flag: `0` public, `1` private.
    pub fn set_is_private_as_i32(self, value: i32) -> (b: Self)
        ensures
            b.bucket_view() == self.bucket_view(),
            b.private_view() == Some(signed_decimal(value as int)),
            b.extended_view() == self.extended_view(),
    {
        self.set_is_private_text(signed_decimal_string(value as i64))
    }

    /// Sets the flag: `0` public, `1` private.
    pub fn set_is_private_as_i64(self, value: i64) -> (b: Self)
        ensures
            b.bucket_view() == self.bucket_view(),
            b.private_view() == Some(signed_decimal(value as int)),
            b.extended_view() == self.extended_view(),
    {
        self.set_is_private_text(signed_decimal_string(value))
    }

    /// Sets the flag: `0` public, `1` private.
    pub fn set_is_private_as_isize(self, value: isize) -> (b: Self)
        ensures
            b.bucket_view() == self.bucket_view(),
            b.private_view() == Some(signed_decimal(value as int)),
            b.extended_view() == self.extended_view(),
    {
        self.set_is_private_text(signed_decimal_string(value as i64))
    }

    /// Sets the flag: `0` public, `1` private.
    pub fn set_is_private_as_u8(self, value: u8) -> (b: Self)
        ensures
            b.bucket_view() == self.bucket_view(),
            b.private_view() == Some(ascii_chars(decimal(value as nat))),
            b.extended_view() == self.extended_view(),
    {
        self.set_is_private_text(decimal_string(value as u64))
    }

    /// Sets the flag: `0` public, `1` private.
    pub fn set_is_private_as_u16(self, value: u16) -> (b: Self)
        ensures
            b.bucket_view() == self.bucket_view(),
            b.private_view() == Some(ascii_chars(decimal(value as nat))),
            b.extended_view() == self.extended_view(),
    {
        self.set_is_private_text(decimal_string(value as u64))
    }

    /// Sets the flag: `0` public, `1` private.
    pub fn set_is_private_as_u32(self, value: u32) -> (b: Self)
        ensures
            b.bucket_view() == self.bucket_view(),
            b.private_view() == Some(ascii_chars(decimal(value as nat))),
            b.extended_view() == self.extended_view(),
    {
        self.set_is_private_text(decimal_string(value as u64))
    }

    /// Sets the flag: `0` public, `1` private.
    pub fn set_is_private_as_u64(self, value: u64) -> (b: Self)
        ensures
            b.bucket_view() == self.bucket_view(),
            b.private_view() == Some(ascii_chars(decimal(value as nat))),
            b.extended_view() == self.extended_view(),
    {
        self.set_is_private_text(decimal_string(value))
    }

    /// Sets the flag: `0` public, `1` private.
    pub fn set_is_private_as_usize(self, value: usize) -> (b: Self)
        ensures
            b.bucket_view() == self.bucket_view(),
            b.private_view() == Some(ascii_chars(decimal(value as nat))),
            b.extended_view() == self.extended_view(),
    {
        self.set_is_private_text(decimal_string(value as u64))
    }

    /// The pairs of the body: the bucket, then the flag, each where it was
    /// set, then the further pairs.
    pub fn build(self) -> (r: Vec<(String, Option<String>)>)
        ensures
            form_pairs(r@) == private_body_pairs(self.bucket_view(), self.private_view(), self.extended_view()),
    {
        let mut all: Vec<(String, Option<String>)> = Vec::new();
        let RequestBody { bucket, is_private, extended_pairs } = self;
        match bucket {
            Some(value) => all.push(("bucket".to_owned(), Some(value))),
            None => {},
        }
        match is_private {
            Some(value) => all.push(("private".to_owned(), Some(value))),
            None => {},
        }
        let ghost head = all@;
        let mut rest = extended_pairs;
        let ghost ext = rest@;
        all.append(&mut rest);
        assert(all@ =~= head + ext);
        assert(form_pairs(all@) =~= private_body_pairs(
            self.bucket_view(),
            self.private_view(),
            self.extended_view(),
        ));
        all
    }
}

} // verus!
