//! JSON values as the API bodies hold them: null, booleans, integers,
//! strings, arrays and objects (fields in order, each name once), with the
//! reads and writes that the API types make of them.

use crate::http_error::str_eq;
use vstd::prelude::*;

verus! {

/// A JSON value. Non-negative integers are `PosInt`, negative ones
/// `NegInt` (never 0 or more).
#[derive(Debug)]
pub enum JsonValue {
    Null,
    Bool(bool),
    PosInt(u64),
    NegInt(i64),
    Str(String),
    Array(Vec<JsonValue>),
    Object(Vec<(String, JsonValue)>),
}

/// The JSON integer for `n`.
pub open spec fn int_value(n: i64) -> JsonValue {
    if n < 0 {
        JsonValue::NegInt(n)
    } else {
        JsonValue::PosInt(n as u64)
    }
}

/// A field's value where it is a string.
pub open spec fn str_field_of(v: Option<JsonValue>) -> Option<String> {
    match v {
        Some(JsonValue::Str(s)) => Some(s),
        _ => None,
    }
}

/// The field `key` of `v` as an `i64`, where it is one.
pub open spec fn field_i64(v: JsonValue, key: Seq<char>) -> Option<i64> {
    match v.field(key) {
        Some(x) => x.i64_of(),
        None => None,
    }
}

/// The field `key` of `v` as a `u64`, where it is one.
pub open spec fn field_u64(v: JsonValue, key: Seq<char>) -> Option<u64> {
    match v.field(key) {
        Some(x) => x.u64_of(),
        None => None,
    }
}

/// What setting the field `key` to `new` does: on an object, the field
/// gets the value (the first of that name, else appended) and the old value
/// is given back as `r`; on anything else nothing changes and `r` is `None`.
pub open spec fn set_outcome(
    before: JsonValue,
    after: JsonValue,
    key: Seq<char>,
    new: JsonValue,
) -> bool {
    if before is Object {
        &&& after is Object
        &&& after.field(key) == Some(new)
        &&& exists|k: String| k@ == key && after.fields() == #[trigger] with_field(before.fields(), k, new)
    } else {
        after == before
    }
}

/// Setting a string field: `r` is the old value where it was a string.
pub open spec fn set_str_outcome(
    before: JsonValue,
    after: JsonValue,
    key: Seq<char>,
    new: String,
    r: Option<String>,
) -> bool {
    &&& set_outcome(before, after, key, JsonValue::Str(new))
    &&& r == (if before is Object {
        str_field_of(before.field(key))
    } else {
        None
    })
}

/// Setting an `i64` field: `r` is the old value where it was an `i64`.
pub open spec fn set_i64_outcome(before: JsonValue, after: JsonValue, key: Seq<char>, new: i64, r: Option<i64>) -> bool {
    &&& set_outcome(before, after, key, int_value(new))
    &&& r == (if before is Object {
        field_i64(before, key)
    } else {
        None
    })
}

/// Setting a `u64` field: `r` is the old value where it was a `u64`.
pub open spec fn set_u64_outcome(before: JsonValue, after: JsonValue, key: Seq<char>, new: u64, r: Option<u64>) -> bool {
    &&& set_outcome(before, after, key, JsonValue::PosInt(new))
    &&& r == (if before is Object {
        field_u64(before, key)
    } else {
        None
    })
}

/// The value of the first field named `key`.
pub open spec fn first_field(entries: Seq<(String, JsonValue)>, key: Seq<char>) -> Option<JsonValue>
    decreases entries.len(),
{
    if entries.len() == 0 {
        None
    } else if entries[0].0@ == key {
        Some(entries[0].1)
    } else {
        first_field(entries.drop_first(), key)
    }
}

/// The index of the first field named `key`, or the number of fields.
pub open spec fn field_index(entries: Seq<(String, JsonValue)>, key: Seq<char>) -> int
    decreases entries.len(),
{
    if entries.len() == 0 {
        0
    } else if entries[0].0@ == key {
        0
    } else {
        1 + field_index(entries.drop_first(), key)
    }
}

/// The fields after setting `key` to `value`: the first field of that
/// name gets the value, else the field is appended.
pub open spec fn with_field(entries: Seq<(String, JsonValue)>, key: String, value: JsonValue) -> Seq<
    (String, JsonValue),
> {
    let k = field_index(entries, key@);
    if k < entries.len() {
        entries.update(k, (entries[k].0, value))
    } else {
        entries.push((key, value))
    }
}

pub proof fn lemma_field_index(entries: Seq<(String, JsonValue)>, key: Seq<char>)
    ensures
        0 <= field_index(entries, key) <= entries.len(),
        forall|j: int| 0 <= j < field_index(entries, key) ==> #[trigger] entries[j].0@ != key,
        field_index(entries, key) < entries.len() ==> entries[field_index(entries, key)].0@ == key
            && first_field(entries, key) == Some(entries[field_index(entries, key)].1),
        field_index(entries, key) == entries.len() ==> first_field(entries, key) is None,
    decreases entries.len(),
{
    if entries.len() > 0 && entries[0].0@ != key {
        lemma_field_index(entries.drop_first(), key);
        assert forall|j: int| 0 <= j < field_index(entries, key) implies #[trigger] entries[j].0@
            != key by {
            if j > 0 {
                assert(entries[j] == entries.drop_first()[j - 1]);
            }
        }
    }
}

/// After a field is set, reading it gives the value set, and every other
/// field reads as before.
pub proof fn field_reads_back_what_was_set(
    entries: Seq<(String, JsonValue)>,
    key: String,
    value: JsonValue,
    other: Seq<char>,
)
    ensures
        first_field(with_field(entries, key, value), key@) == Some(value),
        other != key@ ==> first_field(with_field(entries, key, value), other) == first_field(
            entries,
            other,
        ),
{
    let after = with_field(entries, key, value);
    let k = field_index(entries, key@);
    lemma_field_index(entries, key@);
    lemma_field_index(entries, other);
    lemma_field_index(after, key@);
    lemma_field_index(after, other);
    assert(after[k].0@ == key@);
    assert forall|j: int| 0 <= j < after.len() && j != k implies #[trigger] after[j] == entries[j] by {}
    let p = field_index(after, key@);
    assert(p == k) by {
        if p < k {
            assert(after[p] == entries[p]);
        }
    }
    if other != key@ {
        let q = field_index(entries, other);
        let q2 = field_index(after, other);
        if q < entries.len() {
            assert(q != k);
            assert(q2 == q) by {
                if q2 < q && q2 != k {
                    assert(after[q2] == entries[q2]);
                }
                if q2 > q {
                    assert(after[q] == entries[q]);
                }
            }
        } else {
            assert(q2 == after.len()) by {
                if q2 < after.len() && q2 != k {
                    assert(after[q2] == entries[q2]);
                }
            }
        }
    }
}

impl JsonValue {
    /// The fields of an object (none for other values).
    pub open spec fn fields(self) -> Seq<(String, JsonValue)> {
        match self {
            JsonValue::Object(e) => e@,
            _ => seq![],
        }
    }

    /// The items of an array (none for other values).
    pub open spec fn items(self) -> Seq<JsonValue> {
        match self {
            JsonValue::Array(v) => v@,
            _ => seq![],
        }
    }

    /// The value of the field `key` of an object.
    pub open spec fn field(self, key: Seq<char>) -> Option<JsonValue> {
        match self {
            JsonValue::Object(e) => first_field(e@, key),
            _ => None,
        }
    }

    /// The value as an `i64`, where it is an integer that fits.
    pub open spec fn i64_of(self) -> Option<i64> {
        match self {
            JsonValue::PosInt(u) => if u <= i64::MAX {
                Some(u as i64)
            } else {
                None
            },
            JsonValue::NegInt(i) => Some(i),
            _ => None,
        }
    }

    /// The value as a `u64`, where it is a non-negative integer.
    pub open spec fn u64_of(self) -> Option<u64> {
        match self {
            JsonValue::PosInt(u) => Some(u),
            _ => None,
        }
    }

    /// The value as a string, where it is one.
    pub open spec fn str_of(self) -> Option<Seq<char>> {
        match self {
            JsonValue::Str(s) => Some(s@),
            _ => None,
        }
    }

    /// A negative integer is `NegInt`, all others `PosInt`, throughout.
    pub open spec fn well_formed(self) -> bool
        decreases self,
    {
        match self {
            JsonValue::NegInt(i) => i < 0,
            JsonValue::Array(v) => forall|i: int| 0 <= i < v@.len() ==> (#[trigger] v@[i]).well_formed(),
            JsonValue::Object(e) => forall|i: int| 0 <= i < e@.len() ==> (#[trigger] e@[i]).1.well_formed(),
            _ => true,
        }
    }

    /// An empty object.
    pub fn new_object() -> (v: Self)
        ensures
            v is Object,
            v.fields() == Seq::<(String, JsonValue)>::empty(),
    {
        JsonValue::Object(Vec::new())
    }

    /// An integer.
    pub fn from_i64(n: i64) -> (v: Self)
        ensures
            v == int_value(n),
            v.i64_of() == Some(n),
            v.well_formed(),
            n >= 0 ==> v.u64_of() == Some(n as u64),
            n < 0 ==> v.u64_of() is None,
    {
        if n < 0 {
            JsonValue::NegInt(n)
        } else {
            JsonValue::PosInt(n as u64)
        }
    }

    /// A non-negative integer.
    pub fn from_u64(n: u64) -> (v: Self)
        ensures
            v == JsonValue::PosInt(n),
            v.u64_of() == Some(n),
    {
        JsonValue::PosInt(n)
    }

    /// A string.
    pub fn from_string(s: String) -> (v: Self)
        ensures
            v == JsonValue::Str(s),
            v.str_of() == Some(s@),
    {
        JsonValue::Str(s)
    }

    /// The value as an `i64`, where it is an integer that fits.
    pub fn as_i64(&self) -> (r: Option<i64>)
        ensures
            r == self.i64_of(),
    {
        match self {
            JsonValue::PosInt(u) => if *u <= 9223372036854775807u64 {
                Some(*u as i64)
            } else {
                None
            },
            JsonValue::NegInt(i) => Some(*i),
            _ => None,
        }
    }

    /// The value as a `u64`, where it is a non-negative integer.
    pub fn as_u64(&self) -> (r: Option<u64>)
        ensures
            r == self.u64_of(),
    {
        match self {
            JsonValue::PosInt(u) => Some(*u),
            _ => None,
        }
    }

    /// The value as a string, where it is one.
    pub fn as_str(&self) -> (r: Option<&str>)
        ensures
            match r {
                Some(s) => self.str_of() == Some(s@),
                None => self.str_of() is None,
            },
    {
        match self {
            JsonValue::Str(s) => Some(s.as_str()),
            _ => None,
        }
    }

    /// The string, where the value is one.
    pub fn into_string(self) -> (r: Option<String>)
        ensures
            match r {
                Some(s) => self.str_of() == Some(s@),
                None => self.str_of() is None,
            },
    {
        match self {
            JsonValue::Str(s) => Some(s),
            _ => None,
        }
    }

    /// The value of the field `key`, where the value is an object that has
    /// it.
    pub fn get(&self, key: &str) -> (r: Option<&JsonValue>)
        ensures
            match r {
                Some(v) => self.field(key@) == Some(*v),
                None => self.field(key@) is None,
            },
    {
        match self {
            JsonValue::Object(entries) => {
                let mut i: usize = 0;
                proof {
                    lemma_field_index(entries@, key@);
                }
                while i < entries.len()
                    invariant
                        i <= entries.len(),
                        self.field(key@) == first_field(entries@, key@),
                        forall|j: int| 0 <= j < i ==> #[trigger] entries@[j].0@ != key@,
                        0 <= field_index(entries@, key@) <= entries@.len(),
                        field_index(entries@, key@) < entries@.len() ==> entries@[field_index(entries@, key@)].0@ == key@
                            && first_field(entries@, key@) == Some(entries@[field_index(entries@, key@)].1),
                        field_index(entries@, key@) == entries@.len() ==> first_field(entries@, key@) is None,
                        forall|j: int| 0 <= j < field_index(entries@, key@) ==> #[trigger] entries@[j].0@ != key@,
                    decreases entries.len() - i,
                {
                    if str_eq(entries[i].0.as_str(), key) {
                        assert(field_index(entries@, key@) == i);
                        return Some(&entries[i].1);
                    }
                    i = i + 1;
                }
                None
            },
            _ => None,
        }
    }

    /// Sets the field `key` of an object to `value`; gives the value it
    /// had, where it had one.
    pub fn insert(&mut self, key: String, value: JsonValue) -> (r: Option<JsonValue>)
        requires
            *old(self) is Object,
        ensures
            *final(self) is Object,
            final(self).fields() == with_field(old(self).fields(), key, value),
            r == first_field(old(self).fields(), key@),
    {
        let mut taken = JsonValue::Null;
        std::mem::swap(self, &mut taken);
        match taken {
            JsonValue::Object(mut entries) => {
                let ghost before = entries@;
                proof {
                    lemma_field_index(before, key@);
                }
                let mut i: usize = 0;
                while i < entries.len()
                    invariant
                        i <= entries.len(),
                        entries@ == before,
                        old(self).fields() == before,
                        forall|j: int| 0 <= j < i ==> #[trigger] before[j].0@ != key@,
                        0 <= field_index(before, key@) <= before.len(),
                        field_index(before, key@) < before.len() ==> before[field_index(before, key@)].0@ == key@
                            && first_field(before, key@) == Some(before[field_index(before, key@)].1),
                        field_index(before, key@) == before.len() ==> first_field(before, key@) is None,
                        forall|j: int| 0 <= j < field_index(before, key@) ==> #[trigger] before[j].0@ != key@,
                    decreases entries.len() - i,
                {
                    if str_eq(entries[i].0.as_str(), key.as_str()) {
                        assert(field_index(before, key@) == i);
                        let mut pair = (String::new(), JsonValue::Null);
                        entries.set_and_swap(i, &mut pair);
                        let (name, old_value) = pair;
                        assert(name == before[i as int].0 && old_value == before[i as int].1);
                        entries.set(i, (name, value));
                        assert(entries@ =~= with_field(before, key, value));
                        *self = JsonValue::Object(entries);
                        return Some(old_value);
                    }
                    i = i + 1;
                }
                entries.push((key, value));
                *self = JsonValue::Object(entries);
                None
            },
            _ => {
                *self = taken;
                None
            },
        }
    }

    /// A string field of an object, where there is one.
    pub fn get_str_field(&self, key: &str) -> (r: Option<&str>)
        ensures
            match r {
                Some(s) => self.field(key@) matches Some(v) && v.str_of() == Some(s@),
                None => !(self.field(key@) matches Some(v) && v.str_of() is Some),
            },
    {
        match self.get(key) {
            Some(v) => v.as_str(),
            None => None,
        }
    }

    /// An `i64` field of an object, where there is one.
    pub fn get_i64_field(&self, key: &str) -> (r: Option<i64>)
        ensures
            r == match self.field(key@) {
                Some(v) => v.i64_of(),
                None => None,
            },
    {
        match self.get(key) {
            Some(v) => v.as_i64(),
            None => None,
        }
    }

    /// A `u64` field of an object, where there is one.
    pub fn get_u64_field(&self, key: &str) -> (r: Option<u64>)
        ensures
            r == match self.field(key@) {
                Some(v) => v.u64_of(),
                None => None,
            },
    {
        match self.get(key) {
            Some(v) => v.as_u64(),
            None => None,
        }
    }

    /// Sets the field `key` where the value is an object (else changes
    /// nothing); gives the old value of the field.
    pub fn set_field(&mut self, key: String, new: JsonValue) -> (r: Option<JsonValue>)
        ensures
            *old(self) is Object ==> *final(self) is Object && final(self).fields() == with_field(
                old(self).fields(),
                key,
                new,
            ) && final(self).field(key@) == Some(new) && r == old(self).field(key@),
            !(*old(self) is Object) ==> r is None && *final(self) == *old(self),
    {
        match self {
            JsonValue::Object(_) => {
                let ghost k = key;
                let ghost n = new;
                let r = self.insert(key, new);
                proof {
                    field_reads_back_what_was_set(old(self).fields(), k, n, k@);
                }
                r
            },
            _ => None,
        }
    }

    /// Sets a string field where the value is an object; gives the old
    /// value where it was a string.
    pub fn set_str_field(&mut self, key: String, new: String) -> (r: Option<String>)
        ensures
            *old(self) is Object ==> *final(self) is Object && final(self).field(key@) == Some(
                JsonValue::Str(new),
            ) && final(self).fields() == with_field(old(self).fields(), key, JsonValue::Str(new))
                && r == match old(self).field(key@) {
                Some(v) => match v {
                    JsonValue::Str(x) => Some(x),
                    _ => None,
                },
                None => None,
            },
            !(*old(self) is Object) ==> r is None && *final(self) == *old(self),
    {
        match self.set_field(key, JsonValue::Str(new)) {
            Some(JsonValue::Str(x)) => Some(x),
            _ => None,
        }
    }

    /// Sets an `i64` field where the value is an object; gives the old
    /// value where it was an `i64`.
    pub fn set_i64_field(&mut self, key: String, new: i64) -> (r: Option<i64>)
        ensures
            *old(self) is Object ==> *final(self) is Object && final(self).field(key@) == Some(
                int_value(new),
            ) && final(self).fields() == with_field(old(self).fields(), key, int_value(new))
                && r == match old(self).field(key@) {
                Some(v) => v.i64_of(),
                None => None,
            },
            !(*old(self) is Object) ==> r is None && *final(self) == *old(self),
    {
        match self.set_field(key, JsonValue::from_i64(new)) {
            Some(v) => v.as_i64(),
            None => None,
        }
    }

    /// Sets a `u64` field where the value is an object; gives the old
    /// value where it was a `u64`.
    pub fn set_u64_field(&mut self, key: String, new: u64) -> (r: Option<u64>)
        ensures
            *old(self) is Object ==> *final(self) is Object && final(self).field(key@) == Some(
                JsonValue::PosInt(new),
            ) && final(self).fields() == with_field(old(self).fields(), key, JsonValue::PosInt(new))
                && r == match old(self).field(key@) {
                Some(v) => v.u64_of(),
                None => None,
            },
            !(*old(self) is Object) ==> r is None && *final(self) == *old(self),
    {
        match self.set_field(key, JsonValue::from_u64(new)) {
            Some(v) => v.as_u64(),
            None => None,
        }
    }

    /// The number of items of an array.
    pub fn array_len(&self) -> (n: usize)
        ensures
            n == self.items().len(),
    {
        match self {
            JsonValue::Array(v) => v.len(),
            _ => 0,
        }
    }

    /// The item at `index` of an array.
    pub fn item(&self, index: usize) -> (r: &JsonValue)
        requires
            index < self.items().len(),
        ensures
            *r == self.items()[index as int],
    {
        match self {
            JsonValue::Array(v) => &v[index],
            _ => {
                assert(false);
                self
            },
        }
    }

    /// Inserts `value` at `index` of an array.
    pub fn array_insert(&mut self, index: usize, value: JsonValue)
        requires
            *old(self) is Array,
            index <= old(self).items().len(),
        ensures
            *final(self) is Array,
            final(self).items() == old(self).items().insert(index as int, value),
    {
        let mut taken = JsonValue::Null;
        std::mem::swap(self, &mut taken);
        match taken {
            JsonValue::Array(mut v) => {
                v.insert(index, value);
                *self = JsonValue::Array(v);
            },
            _ => {
                *self = taken;
            },
        }
    }

    /// Removes the item at `index` of an array.
    pub fn array_remove(&mut self, index: usize) -> (r: JsonValue)
        requires
            *old(self) is Array,
            index < old(self).items().len(),
        ensures
            *final(self) is Array,
            final(self).items() == old(self).items().remove(index as int),
            r == old(self).items()[index as int],
    {
        let mut taken = JsonValue::Null;
        std::mem::swap(self, &mut taken);
        match taken {
            JsonValue::Array(mut v) => {
                let r = v.remove(index);
                *self = JsonValue::Array(v);
                r
            },
            _ => {
                *self = taken;
                JsonValue::Null
            },
        }
    }

    /// Appends `value` to an array.
    pub fn array_push(&mut self, value: JsonValue)
        requires
            *old(self) is Array,
        ensures
            *final(self) is Array,
            final(self).items() == old(self).items().push(value),
    {
        let mut taken = JsonValue::Null;
        std::mem::swap(self, &mut taken);
        match taken {
            JsonValue::Array(mut v) => {
                v.push(value);
                *self = JsonValue::Array(v);
            },
            _ => {
                *self = taken;
            },
        }
    }

    /// Takes the last item of an array, where there is one.
    pub fn array_pop(&mut self) -> (r: Option<JsonValue>)
        requires
            *old(self) is Array,
        ensures
            *final(self) is Array,
            old(self).items().len() == 0 ==> r is None && final(self).items() == old(self).items(),
            old(self).items().len() > 0 ==> r == Some(old(self).items().last())
                && final(self).items() == old(self).items().drop_last(),
    {
        let mut taken = JsonValue::Null;
        std::mem::swap(self, &mut taken);
        match taken {
            JsonValue::Array(mut v) => {
                let r = v.pop();
                *self = JsonValue::Array(v);
                r
            },
            _ => {
                *self = taken;
                None
            },
        }
    }
}

} // verus!
