//! The JSON body of the answer that lists the buckets: an array of bucket
//! names.

use crate::json::JsonValue;
use vstd::prelude::*;

verus! {

/// The body of the answer: a JSON array of strings.
#[derive(Debug)]
pub struct ResponseBody(pub JsonValue);

/// Every item is a string.
pub open spec fn all_strings(items: Seq<JsonValue>) -> bool {
    forall|i: int| 0 <= i < items.len() ==> (#[trigger] items[i]).str_of() is Some
}

impl ResponseBody {
    /// The JSON of the body.
    pub closed spec fn json(&self) -> JsonValue {
        self.0
    }

    /// A body of these names.
    pub fn from_names(names: Vec<String>) -> (b: Self)
        ensures
            b.json() is Array,
            b.json().items().len() == names.len(),
            forall|i: int| 0 <= i < names.len() ==> (#[trigger] b.json().items()[i]).str_of() == Some(names@[i]@),
    {
        let mut items: Vec<JsonValue> = Vec::new();
        let mut i: usize = 0;
        while i < names.len()
            invariant
                i <= names.len(),
                items@.len() == i,
                forall|j: int| 0 <= j < i ==> (#[trigger] items@[j]).str_of() == Some(names@[j]@),
            decreases names.len() - i,
        {
            items.push(JsonValue::from_string(names[i].clone()));
            i = i + 1;
        }
        ResponseBody(JsonValue::Array(items))
    }

    /// The names; every item must be a string.
    pub fn to_str_vec(&self) -> (r: Vec<&str>)
        requires
            self.json() is Array,
            all_strings(self.json().items()),
        ensures
            r.len() == self.json().items().len(),
            forall|i: int| 0 <= i < r.len() ==> Some((#[trigger] r@[i])@) == self.json().items()[i].str_of(),
    {
        let n = self.0.array_len();
        let mut r: Vec<&str> = Vec::new();
        let mut i: usize = 0;
        while i < n
            invariant
                i <= n,
                n == self.json().items().len(),
                all_strings(self.json().items()),
                r.len() == i,
                forall|j: int| 0 <= j < i ==> Some((#[trigger] r@[j])@) == self.json().items()[j].str_of(),
            decreases n - i,
        {
            let item = self.0.item(i);
            assert(item.str_of() is Some);
            r.push(item.as_str().unwrap());
            i = i + 1;
        }
        r
    }

    /// The number of names; the body must be an array.
    pub fn len(&self) -> (n: usize)
        requires
            self.json() is Array,
        ensures
            n == self.json().items().len(),
    {
        self.0.array_len()
    }

    /// There is no name; the body must be an array.
    pub fn is_empty(&self) -> (b: bool)
        requires
            self.json() is Array,
        ensures
            b == (self.json().items().len() == 0),
    {
        self.0.array_len() == 0
    }

    /// Inserts a name at `index`.
    pub fn insert_str(&mut self, index: usize, val: String)
        requires
            old(self).json() is Array,
            index <= old(self).json().items().len(),
        ensures
            final(self).json() is Array,
            final(self).json().items() == old(self).json().items().insert(index as int, JsonValue::Str(val)),
    {
        self.0.array_insert(index, JsonValue::from_string(val))
    }

    /// Removes the item at `index`; gives it where it is a string.
    pub fn remove_as_str(&mut self, index: usize) -> (r: Option<String>)
        requires
            old(self).json() is Array,
            index < old(self).json().items().len(),
        ensures
            final(self).json() is Array,
            final(self).json().items() == old(self).json().items().remove(index as int),
            match r {
                Some(s) => old(self).json().items()[index as int].str_of() == Some(s@),
                None => old(self).json().items()[index as int].str_of() is None,
            },
    {
        self.0.array_remove(index).into_string()
    }

    /// Appends a name.
    pub fn push_str(&mut self, val: String)
        requires
            old(self).json() is Array,
        ensures
            final(self).json() is Array,
            final(self).json().items() == old(self).json().items().push(JsonValue::Str(val)),
    {
        self.0.array_push(JsonValue::from_string(val))
    }

    /// Takes the last item; gives it where it is a string.
    pub fn pop_as_str(&mut self) -> (r: Option<String>)
        requires
            old(self).json() is Array,
        ensures
            final(self).json() is Array,
            old(self).json().items().len() == 0 ==> r is None && final(self).json().items() == old(self).json().items(),
            old(self).json().items().len() > 0 ==> final(self).json().items() == old(self).json().items().drop_last()
                && match r {
                Some(s) => old(self).json().items().last().str_of() == Some(s@),
                None => old(self).json().items().last().str_of() is None,
            },
    {
        match self.0.array_pop() {
            Some(v) => v.into_string(),
            None => None,
        }
    }
}

} // verus!
