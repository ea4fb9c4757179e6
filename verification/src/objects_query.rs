//! The query of the call that lists the objects of a bucket: an ordered
//! map from parameter names to values, kept in an `IndexMap`.

use crate::text::{ascii_chars, decimal, decimal_string, signed_decimal, signed_decimal_string};
use indexmap::IndexMap;
use vstd::prelude::*;
use vstd::string::*;

verus! {

#[verifier::external_type_specification]
#[verifier::external_body]
#[verifier::reject_recursive_types(K)]
#[verifier::reject_recursive_types(V)]
#[verifier::reject_recursive_types(S)]
pub struct ExIndexMap<K, V, S>(IndexMap<K, V, S>);

/// The entries of a map of strings, in the map's order, each as its key and
/// its value.
pub uninterp spec fn index_map_entries(m: IndexMap<String, String>) -> Seq<(Seq<char>, Seq<char>)>;

/// The index of the entry of key `key`, or the number of entries.
pub open spec fn key_index(entries: Seq<(Seq<char>, Seq<char>)>, key: Seq<char>) -> int
    decreases entries.len(),
{
    if entries.len() == 0 {
        0
    } else if entries[0].0 == key {
        0
    } else {
        1 + key_index(entries.drop_first(), key)
    }
}

/// The entries after setting `key` to `value`: an entry of that key keeps
/// its place and gets the value, else the entry is appended.
pub open spec fn with_entry(entries: Seq<(Seq<char>, Seq<char>)>, key: Seq<char>, value: Seq<char>) -> Seq<
    (Seq<char>, Seq<char>),
> {
    let k = key_index(entries, key);
    if k < entries.len() {
        entries.update(k, (entries[k].0, value))
    } else {
        entries.push((key, value))
    }
}

/// `IndexMap::new`: a map with no entry.
#[verifier::external_body]
fn new_index_map() -> (m: IndexMap<String, String>)
    ensures
        index_map_entries(m) == Seq::<(Seq<char>, Seq<char>)>::empty(),
{
    IndexMap::new()
}

/// `IndexMap::insert`: where an equal key is there, its entry keeps its
/// place, gets the value and the old value is returned; else the entry is
/// appended and `None` is returned.
#[verifier::external_body]
fn index_map_insert(m: &mut IndexMap<String, String>, key: String, value: String) -> (r: Option<String>)
    ensures
        index_map_entries(*final(m)) == with_entry(index_map_entries(*old(m)), key@, value@),
        key_index(index_map_entries(*old(m)), key@) < index_map_entries(*old(m)).len() ==> (r matches Some(
            v,
        ) && v@ == index_map_entries(*old(m))[key_index(index_map_entries(*old(m)), key@)].1),
        key_index(index_map_entries(*old(m)), key@) == index_map_entries(*old(m)).len() ==> r is None,
{
    m.insert(key, value)
}

/// `IndexMap::into_iter`, collected: the entries in the map's order.
#[verifier::external_body]
fn index_map_into_pairs(m: IndexMap<String, String>) -> (r: Vec<(String, String)>)
    ensures
        r@.len() == index_map_entries(m).len(),
        forall|i: int|
            0 <= i < r@.len() ==> ((#[trigger] r@[i]).0@, r@[i].1@) == index_map_entries(m)[i],
{
    m.into_iter().collect()
}

/// The query parameters, in the order their names were first set.
#[derive(Debug)]
pub struct QueryParams {
    map: IndexMap<String, String>,
}

impl View for QueryParams {
    type V = Seq<(Seq<char>, Seq<char>)>;

    closed spec fn view(&self) -> Seq<(Seq<char>, Seq<char>)> {
        index_map_entries(self.map)
    }
}

impl QueryParams {
    /// No parameter.
    pub fn new() -> (q: Self)
        ensures
            q@ == Seq::<(Seq<char>, Seq<char>)>::empty(),
    {
        QueryParams { map: new_index_map() }
    }

    /// Sets the parameter `name` to `value`.
    pub fn insert(self, name: String, value: String) -> (q: Self)
        ensures
            q@ == with_entry(self@, name@, value@),
    {
        let mut m = self.map;
        let _ = index_map_insert(&mut m, name, value);
        QueryParams { map: m }
    }

    /// Sets the bucket.
    pub fn set_bucket_as_str(self, value: String) -> (q: Self)
        ensures
            q@ == with_entry(self@, "bucket"@, value@),
    {
        self.insert("bucket".to_owned(), value)
    }

    /// Sets where the listing starts.
    pub fn set_marker_as_str(self, value: String) -> (q: Self)
        ensures
            q@ == with_entry(self@, "marker"@, value@),
    {
        self.insert("marker".to_owned(), value)
    }

    /// Sets how many entries to list, in decimal.
    pub fn set_limit_as_i8(self, value: i8) -> (q: Self)
        ensures
            q@ == with_entry(self@, "limit"@, signed_decimal(value as int)),
    {
        self.insert("limit".to_owned(), signed_decimal_string(value as i64))
    }

    /// Sets how many entries to list, in decimal.
    pub fn set_limit_as_i16(self, value: i16) -> (q: Self)
        ensures
            q@ == with_entry(self@, "limit"@, signed_decimal(value as int)),
    {
        self.insert("limit".to_owned(), signed_decimal_string(value as i64))
    }

    /// Sets how many entries to list, in decimal.
    pub fn set_limit_as_i32(self, value: i32) -> (q: Self)
        ensures
            q@ == with_entry(self@, "limit"@, signed_decimal(value as int)),
    {
        self.insert("limit".to_owned(), signed_decimal_string(value as i64))
    }

    /// Sets how many entries to list, in decimal.
    pub fn set_limit_as_i64(self, value: i64) -> (q: Self)
        ensures
            q@ == with_entry(self@, "limit"@, signed_decimal(value as int)),
    {
        self.insert("limit".to_owned(), signed_decimal_string(value))
    }

    /// Sets how many entries to list, in decimal.
    pub fn set_limit_as_isize(self, value: isize) -> (q: Self)
        ensures
            q@ == with_entry(self@, "limit"@, signed_decimal(value as int)),
    {
        self.insert("limit".to_owned(), signed_decimal_string(value as i64))
    }

    /// Sets how many entries to list, in decimal.
    pub fn set_limit_as_u8(self, value: u8) -> (q: Self)
        ensures
            q@ == with_entry(self@, "limit"@, ascii_chars(decimal(value as nat))),
    {
        self.insert("limit".to_owned(), decimal_string(value as u64))
    }

    /// Sets how many entries to list, in decimal.
    pub fn set_limit_as_u16(self, value: u16) -> (q: Self)
        ensures
            q@ == with_entry(self@, "limit"@, ascii_chars(decimal(value as nat))),
    {
        self.insert("limit".to_owned(), decimal_string(value as u64))
    }

    /// Sets how many entries to list, in decimal.
    pub fn set_limit_as_u32(self, value: u32) -> (q: Self)
        ensures
            q@ == with_entry(self@, "limit"@, ascii_chars(decimal(value as nat))),
    {
        self.insert("limit".to_owned(), decimal_string(value as u64))
    }

    /// Sets how many entries to list, in decimal.
    pub fn set_limit_as_u64(self, value: u64) -> (q: Self)
        ensures
            q@ == with_entry(self@, "limit"@, ascii_chars(decimal(value as nat))),
    {
        self.insert("limit".to_owned(), decimal_string(value))
    }

    /// Sets how many entries to list, in decimal.
    pub fn set_limit_as_usize(self, value: usize) -> (q: Self)
        ensures
            q@ == with_entry(self@, "limit"@, ascii_chars(decimal(value as nat))),
    {
        self.insert("limit".to_owned(), decimal_string(value as u64))
    }

    /// Sets the prefix of the listed names.
    pub fn set_prefix_as_str(self, value: String) -> (q: Self)
        ensures
            q@ == with_entry(self@, "prefix"@, value@),
    {
        self.insert("prefix".to_owned(), value)
    }

    /// Sets the delimiter of directories.
    pub fn set_delimiter_as_str(self, value: String) -> (q: Self)
        ensures
            q@ == with_entry(self@, "delimiter"@, value@),
    {
        self.insert("delimiter".to_owned(), value)
    }

    /// Sets whether the parts of multipart uploads are listed: `true` or
    /// `false`.
    pub fn set_need_parts_as_bool(self, value: bool) -> (q: Self)
        ensures
            q@ == with_entry(self@, "needparts"@, if value { "true"@ } else { "false"@ }),
    {
        let text = if value {
            "true".to_owned()
        } else {
            "false".to_owned()
        };
        self.insert("needparts".to_owned(), text)
    }

    /// The pairs of the query, in order.
    pub fn build(self) -> (r: Vec<(String, String)>)
        ensures
            r@.len() == self@.len(),
            forall|i: int| 0 <= i < r@.len() ==> ((#[trigger] r@[i]).0@, r@[i].1@) == self@[i],
    {
        index_map_into_pairs(self.map)
    }
}

} // verus!
