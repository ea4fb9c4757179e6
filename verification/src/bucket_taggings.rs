//! The parameters of the call that sets the tags of a bucket: the query
//! (the bucket) and the JSON body (a list of tags, each a key and a value).

use crate::json::{str_field_of, with_field, JsonValue};
use vstd::prelude::*;
use vstd::string::*;

verus! {

/// The query of the call: at most one value per name, in the order the
/// names were first set.
#[derive(Debug)]
pub struct QueryParams {
    pub pairs: Vec<(String, String)>,
}

impl QueryParams {
    /// No parameter yet.
    pub fn new() -> (q: Self)
        ensures
            q.pairs@ == Seq::<(String, String)>::empty(),
    {
        QueryParams { pairs: Vec::new() }
    }

    /// The names are distinct.
    pub open spec fn distinct(&self) -> bool {
        forall|i: int, j: int|
            0 <= i < j < self.pairs@.len() ==> (#[trigger] self.pairs@[i]).0@ != (#[trigger] self.pairs@[j]).0@
    }

    /// Sets the parameter `name` to `value`.
    fn insert(self, name: String, value: String) -> (q: Self)
        requires
            self.distinct(),
        ensures
            q.distinct(),
            q.pairs@.len() == self.pairs@.len() || q.pairs@.len() == self.pairs@.len() + 1,
            forall|i: int|
                0 <= i < q.pairs@.len() ==> (#[trigger] q.pairs@[i]).0@ == name@ ==> q.pairs@[i].1 == value,
            exists|i: int| 0 <= i < q.pairs@.len() && (#[trigger] q.pairs@[i]).0@ == name@,
            forall|i: int|
                0 <= i < self.pairs@.len() && (#[trigger] self.pairs@[i]).0@ != name@ ==> q.pairs@[i]
                    == self.pairs@[i],
            forall|i: int| 0 <= i < self.pairs@.len() ==> (#[trigger] q.pairs@[i]).0@ == self.pairs@[i].0@,
            q.pairs@.len() == self.pairs@.len() + 1 ==> q.pairs@.last() == (name, value),
    {
        let mut q = self;
        let n = q.pairs.len();
        let mut i: usize = 0;
        while i < n
            invariant
                q == self,
                self.distinct(),
                n == self.pairs@.len(),
                i <= n,
                forall|j: int| 0 <= j < i ==> (#[trigger] self.pairs@[j]).0@ != name@,
            decreases n - i,
        {
            if crate::http_error::str_eq(q.pairs[i].0.as_str(), name.as_str()) {
                let key = q.pairs[i].0.clone();
                let ghost before = q.pairs@;
                q.pairs.set(i, (key, value));
                assert forall|a: int, b: int|
                    0 <= a < b < q.pairs@.len() implies (#[trigger] q.pairs@[a]).0@ != (
                    #[trigger] q.pairs@[b]).0@ by {
                    assert(q.pairs@[a].0@ == before[a].0@);
                    assert(q.pairs@[b].0@ == before[b].0@);
                }
                assert forall|a: int|
                    0 <= a < q.pairs@.len() && (#[trigger] q.pairs@[a]).0@ == name@ implies a
                    == i by {
                    if a != i {
                        assert(before[a].0@ != before[i as int].0@);
                    }
                }
                assert(q.pairs@[i as int].0@ == name@);
                return q;
            }
            i = i + 1;
        }
        q.pairs.push((name, value));
        assert(q.pairs@[n as int] == (name, value));
        q
    }

    /// Sets the bucket.
    pub fn set_bucket_as_str(self, value: String) -> (q: Self)
        requires
            self.distinct(),
        ensures
            q.distinct(),
            exists|i: int| 0 <= i < q.pairs@.len() && (#[trigger] q.pairs@[i]).0@ == "bucket"@,
            forall|i: int|
                0 <= i < q.pairs@.len() ==> (#[trigger] q.pairs@[i]).0@ == "bucket"@ ==> q.pairs@[i].1
                    == value,
            forall|i: int|
                0 <= i < self.pairs@.len() && (#[trigger] self.pairs@[i]).0@ != "bucket"@ ==> q.pairs@[i]
                    == self.pairs@[i],
    {
        self.insert("bucket".to_owned(), value)
    }

    /// The pairs of the query.
    pub fn build(self) -> (r: Vec<(String, String)>)
        ensures
            r@ == self.pairs@,
    {
        self.pairs
    }
}

/// One tag: a JSON object with a key and a value.
#[derive(Debug)]
pub struct TagInfo(pub JsonValue);

/// The tags: a JSON array of tags.
#[derive(Debug)]
pub struct Tags(pub JsonValue);

/// The body of the request: a JSON object with the tags.
#[derive(Debug)]
pub struct RequestBody(pub JsonValue);

impl TagInfo {
    /// The key of the tag; it must be there, as a string.
    pub fn get_key_as_str(&self) -> (s: &str)
        requires
            self.0 is Object,
            self.0.field("Key"@) matches Some(v) && v.str_of() is Some,
        ensures
            Some(s@) == self.0.field("Key"@).unwrap().str_of(),
    {
        proof {
            reveal_strlit("Key");
        }
        self.0.get_str_field("Key").unwrap()
    }

    /// Sets the key; gives the old one where it was a string.
    pub fn set_key_as_str(&mut self, new: String) -> (r: Option<String>)
        requires
            old(self).0 is Object,
        ensures
            final(self).0 is Object,
            exists|k: String| k@ == "Key"@ && final(self).0.fields() == with_field(old(self).0.fields(), k, JsonValue::Str(new)),
            final(self).0.field("Key"@) == Some(JsonValue::Str(new)),
            r == str_field_of(old(self).0.field("Key"@)),
    {
        proof {
            reveal_strlit("Key");
        }
        let key = "Key".to_owned();
        let ghost kk = key;
        let r = self.0.set_str_field(key, new);
        assert(kk@ == "Key"@);
        r
    }

    /// The value of the tag; it must be there, as a string.
    pub fn get_value_as_str(&self) -> (s: &str)
        requires
            self.0 is Object,
            self.0.field("Value"@) matches Some(v) && v.str_of() is Some,
        ensures
            Some(s@) == self.0.field("Value"@).unwrap().str_of(),
    {
        proof {
            reveal_strlit("Value");
        }
        self.0.get_str_field("Value").unwrap()
    }

    /// Sets the value; gives the old one where it was a string.
    pub fn set_value_as_str(&mut self, new: String) -> (r: Option<String>)
        requires
            old(self).0 is Object,
        ensures
            final(self).0 is Object,
            exists|k: String| k@ == "Value"@ && final(self).0.fields() == with_field(old(self).0.fields(), k, JsonValue::Str(new)),
            final(self).0.field("Value"@) == Some(JsonValue::Str(new)),
            r == str_field_of(old(self).0.field("Value"@)),
    {
        proof {
            reveal_strlit("Value");
        }
        let key = "Value".to_owned();
        let ghost kk = key;
        let r = self.0.set_str_field(key, new);
        assert(kk@ == "Value"@);
        r
    }
}

impl Tags {
    /// Tags of these tag objects, in order.
    pub fn from_tag_infos(tags: Vec<TagInfo>) -> (t: Self)
        ensures
            t.0 is Array,
            t.0.items().len() == tags@.len(),
            forall|i: int| 0 <= i < tags@.len() ==> (#[trigger] t.0.items()[i]) == tags@[i].0,
    {
        let mut items: Vec<JsonValue> = Vec::new();
        let mut rest = tags;
        let ghost all = rest@;
        let mut k: usize = rest.len();
        let mut taken: Vec<JsonValue> = Vec::new();
        while k > 0
            invariant
                k == rest@.len(),
                all.len() == rest@.len() + taken@.len(),
                forall|i: int| 0 <= i < rest@.len() ==> (#[trigger] rest@[i]) == all[i],
                forall|i: int|
                    0 <= i < taken@.len() ==> (#[trigger] taken@[i]) == all[all.len() - 1 - i].0,
            decreases k,
        {
            let t = rest.pop().unwrap();
            taken.push(t.0);
            k = k - 1;
        }
        let n = taken.len();
        while taken.len() > 0
            invariant
                n == all.len(),
                items@.len() + taken@.len() == n,
                forall|i: int|
                    0 <= i < taken@.len() ==> (#[trigger] taken@[i]) == all[all.len() - 1 - i].0,
                forall|i: int| 0 <= i < items@.len() ==> (#[trigger] items@[i]) == all[i].0,
            decreases taken.len(),
        {
            let v = taken.pop().unwrap();
            items.push(v);
        }
        Tags(JsonValue::Array(items))
    }

    /// The tags, each by reference; the tags must be an array.
    pub fn to_tag_info_vec(&self) -> (r: Vec<&JsonValue>)
        requires
            self.0 is Array,
        ensures
            r@.len() == self.0.items().len(),
            forall|i: int| 0 <= i < r@.len() ==> *(#[trigger] r@[i]) == self.0.items()[i],
    {
        let n = self.0.array_len();
        let mut r: Vec<&JsonValue> = Vec::new();
        let mut i: usize = 0;
        while i < n
            invariant
                i <= n,
                n == self.0.items().len(),
                r@.len() == i,
                forall|j: int| 0 <= j < i ==> *(#[trigger] r@[j]) == self.0.items()[j],
            decreases n - i,
        {
            r.push(self.0.item(i));
            i = i + 1;
        }
        r
    }

    /// The number of tags; the tags must be an array.
    pub fn len(&self) -> (n: usize)
        requires
            self.0 is Array,
        ensures
            n == self.0.items().len(),
    {
        self.0.array_len()
    }

    /// There is no tag; the tags must be an array.
    pub fn is_empty(&self) -> (b: bool)
        requires
            self.0 is Array,
        ensures
            b == (self.0.items().len() == 0),
    {
        self.0.array_len() == 0
    }

    /// Inserts a tag at `index`.
    pub fn insert_tag_info(&mut self, index: usize, val: TagInfo)
        requires
            old(self).0 is Array,
            index <= old(self).0.items().len(),
        ensures
            final(self).0 is Array,
            final(self).0.items() == old(self).0.items().insert(index as int, val.0),
    {
        self.0.array_insert(index, val.0)
    }

    /// Removes the tag at `index`.
    pub fn remove_as_tag_info(&mut self, index: usize) -> (r: TagInfo)
        requires
            old(self).0 is Array,
            index < old(self).0.items().len(),
        ensures
            final(self).0 is Array,
            final(self).0.items() == old(self).0.items().remove(index as int),
            r.0 == old(self).0.items()[index as int],
    {
        TagInfo(self.0.array_remove(index))
    }

    /// Appends a tag.
    pub fn push_tag_info(&mut self, val: TagInfo)
        requires
            old(self).0 is Array,
        ensures
            final(self).0 is Array,
            final(self).0.items() == old(self).0.items().push(val.0),
    {
        self.0.array_push(val.0)
    }

    /// Takes the last tag, where there is one.
    pub fn pop_tag_info(&mut self) -> (r: Option<TagInfo>)
        requires
            old(self).0 is Array,
        ensures
            final(self).0 is Array,
            old(self).0.items().len() == 0 ==> r is None && final(self).0.items() == old(self).0.items(),
            old(self).0.items().len() > 0 ==> (r matches Some(t) && t.0 == old(self).0.items().last()
                && final(self).0.items() == old(self).0.items().drop_last()),
    {
        match self.0.array_pop() {
            Some(v) => Some(TagInfo(v)),
            None => None,
        }
    }
}

impl RequestBody {
    /// The tags; they must be there.
    pub fn get_tags(&self) -> (t: &JsonValue)
        requires
            self.0 is Object,
            self.0.field("Tags"@) is Some,
        ensures
            Some(*t) == self.0.field("Tags"@),
    {
        proof {
            reveal_strlit("Tags");
        }
        self.0.get("Tags").unwrap()
    }

    /// Sets the tags; gives the old ones.
    pub fn set_tags(&mut self, new: Tags) -> (r: Option<Tags>)
        requires
            old(self).0 is Object,
        ensures
            final(self).0 is Object,
            exists|k: String| k@ == "Tags"@ && final(self).0.fields() == with_field(old(self).0.fields(), k, new.0),
            final(self).0.field("Tags"@) == Some(new.0),
            match r {
                Some(t) => old(self).0.field("Tags"@) == Some(t.0),
                None => old(self).0.field("Tags"@) is None,
            },
    {
        proof {
            reveal_strlit("Tags");
        }
        let key = "Tags".to_owned();
        let ghost kk = key;
        let old_value = self.0.set_field(key, new.0);
        assert(kk@ == "Tags"@);
        match old_value {
            Some(v) => Some(Tags(v)),
            None => None,
        }
    }
}

} // verus!
