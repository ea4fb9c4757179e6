//! The parameters of the batch call, which runs several object operations
//! at once: the form body (one `op` pair per operation, then any further
//! pairs) and the JSON answer (one response per operation: a code and, for
//! some operations, data).

use crate::bucket_private::{form_pair, form_pairs};
use crate::json::{
    field_i64, field_u64, set_i64_outcome, set_outcome, set_str_outcome, set_u64_outcome, JsonValue,
};
use vstd::prelude::*;
use vstd::string::*;

verus! {

/// The pairs that a body builds: an `op` pair per operation, in order, then
/// the further pairs.
pub open spec fn batch_body_pairs(
    operations: Seq<Seq<char>>,
    extended: Seq<(Seq<char>, Option<Seq<char>>)>,
) -> Seq<(Seq<char>, Option<Seq<char>>)> {
    operations.map_values(|o: Seq<char>| ("op"@, Some(o))) + extended
}

/// The body of the request.
#[derive(Debug)]
pub struct RequestBody {
    operations: Vec<String>,
    extended_pairs: Vec<(String, Option<String>)>,
}

impl RequestBody {
    /// The operations, in order.
    pub closed spec fn operations_view(&self) -> Seq<Seq<char>> {
        self.operations@.map_values(|o: String| o@)
    }

    /// The further pairs.
    pub closed spec fn extended_view(&self) -> Seq<(Seq<char>, Option<Seq<char>>)> {
        form_pairs(self.extended_pairs@)
    }

    /// A body with no operation.
    pub fn new() -> (b: Self)
        ensures
            b.operations_view() == Seq::<Seq<char>>::empty(),
            b.extended_view() == Seq::<(Seq<char>, Option<Seq<char>>)>::empty(),
    {
        let b = RequestBody { operations: Vec::new(), extended_pairs: Vec::new() };
        assert(b.operations_view() =~= Seq::<Seq<char>>::empty());
        assert(b.extended_view() =~= Seq::<(Seq<char>, Option<Seq<char>>)>::empty());
        b
    }

    /// Appends a further pair.
    pub fn append_pair(self, key: String, value: String) -> (b: Self)
        ensures
            b.operations_view() == self.operations_view(),
            b.extended_view() == self.extended_view().push((key@, Some(value@))),
    {
        let mut b = self;
        b.extended_pairs.push((key, Some(value)));
        assert(b.extended_view() =~= self.extended_view().push((key@, Some(value@))));
        b
    }

    /// Appends an operation, such as `stat/<encoded entry>`.
    pub fn append_operations_as_str(self, value: String) -> (b: Self)
        ensures
            b.operations_view() == self.operations_view().push(value@),
            b.extended_view() == self.extended_view(),
    {
        let mut b = self;
        b.operations.push(value);
        assert(b.operations_view() =~= self.operations_view().push(value@));
        b
    }

    /// The pairs of the body: an `op` pair per operation, then the further
    /// pairs.
    pub fn build(self) -> (r: Vec<(String, Option<String>)>)
        ensures
            form_pairs(r@) == batch_body_pairs(self.operations_view(), self.extended_view()),
    {
        let RequestBody { operations, extended_pairs } = self;
        let mut all: Vec<(String, Option<String>)> = Vec::new();
        let mut i: usize = 0;
        while i < operations.len()
            invariant
                i <= operations@.len(),
                all@.len() == i,
                forall|j: int|
                    0 <= j < i ==> form_pair(#[trigger] all@[j]) == ("op"@, Some(operations@[j]@)),
            decreases operations@.len() - i,
        {
            let op = "op".to_owned();
            all.push((op, Some(operations[i].clone())));
            i = i + 1;
        }
        let ghost head = all@;
        let mut rest = extended_pairs;
        let ghost ext = rest@;
        all.append(&mut rest);
        assert(all@ =~= head + ext);
        assert(form_pairs(all@) =~= batch_body_pairs(self.operations_view(), self.extended_view()));
        all
    }
}

/// The answer: a JSON array with one response per operation.
#[derive(Debug)]
pub struct ResponseBody(pub JsonValue);

/// The response to one operation: a JSON object with a code and, where
/// there is some, data.
#[derive(Debug)]
pub struct OperationResponse(pub JsonValue);

/// The data of a response: a JSON object.
#[derive(Debug)]
pub struct OperationResponseData(pub JsonValue);

impl ResponseBody {
    /// Responses of these JSON objects, in order.
    pub fn from_operation_responses(responses: Vec<OperationResponse>) -> (b: Self)
        ensures
            b.0 is Array,
            b.0.items().len() == responses@.len(),
            forall|i: int| 0 <= i < responses@.len() ==> (#[trigger] b.0.items()[i]) == responses@[i].0,
    {
        let mut rest = responses;
        let ghost all = rest@;
        let mut taken: Vec<JsonValue> = Vec::new();
        while rest.len() > 0
            invariant
                all.len() == rest@.len() + taken@.len(),
                forall|i: int| 0 <= i < rest@.len() ==> (#[trigger] rest@[i]) == all[i],
                forall|i: int|
                    0 <= i < taken@.len() ==> (#[trigger] taken@[i]) == all[all.len() - 1 - i].0,
            decreases rest@.len(),
        {
            let r = rest.pop().unwrap();
            taken.push(r.0);
        }
        let mut items: Vec<JsonValue> = Vec::new();
        while taken.len() > 0
            invariant
                items@.len() + taken@.len() == all.len(),
                forall|i: int|
                    0 <= i < taken@.len() ==> (#[trigger] taken@[i]) == all[all.len() - 1 - i].0,
                forall|i: int| 0 <= i < items@.len() ==> (#[trigger] items@[i]) == all[i].0,
            decreases taken@.len(),
        {
            let v = taken.pop().unwrap();
            items.push(v);
        }
        ResponseBody(JsonValue::Array(items))
    }

    /// The responses, each by reference; the answer must be an array.
    pub fn to_operation_response_vec(&self) -> (r: Vec<&JsonValue>)
        requires
            self.0 is Array,
        ensures
            r@.len() == self.0.items().len(),
            forall|i: int| 0 <= i < r@.len() ==> *(#[trigger] r@[i]) == self.0.items()[i],
    {
        let n = self.0.array_len();
        let mut r: Vec<&JsonValue> = Vec::new();
        let mut i: usize = 0;
        while i < n
            invariant
                i <= n,
                n == self.0.items().len(),
                r@.len() == i,
                forall|j: int| 0 <= j < i ==> *(#[trigger] r@[j]) == self.0.items()[j],
            decreases n - i,
        {
            r.push(self.0.item(i));
            i = i + 1;
        }
        r
    }

    /// The number of responses; the answer must be an array.
    pub fn len(&self) -> (n: usize)
        requires
            self.0 is Array,
        ensures
            n == self.0.items().len(),
    {
        self.0.array_len()
    }

    /// There is no response; the answer must be an array.
    pub fn is_empty(&self) -> (b: bool)
        requires
            self.0 is Array,
        ensures
            b == (self.0.items().len() == 0),
    {
        self.0.array_len() == 0
    }

    /// Inserts a response at `index`.
    pub fn insert_operation_response(&mut self, index: usize, val: OperationResponse)
        requires
            old(self).0 is Array,
            index <= old(self).0.items().len(),
        ensures
            final(self).0 is Array,
            final(self).0.items() == old(self).0.items().insert(index as int, val.0),
    {
        self.0.array_insert(index, val.0)
    }

    /// Removes the response at `index`.
    pub fn remove_as_operation_response(&mut self, index: usize) -> (r: OperationResponse)
        requires
            old(self).0 is Array,
            index < old(self).0.items().len(),
        ensures
            final(self).0 is Array,
            final(self).0.items() == old(self).0.items().remove(index as int),
            r.0 == old(self).0.items()[index as int],
    {
        OperationResponse(self.0.array_remove(index))
    }

    /// Appends a response.
    pub fn push_operation_response(&mut self, val: OperationResponse)
        requires
            old(self).0 is Array,
        ensures
            final(self).0 is Array,
            final(self).0.items() == old(self).0.items().push(val.0),
    {
        self.0.array_push(val.0)
    }

    /// Takes the last response, where there is one.
    pub fn pop_operation_response(&mut self) -> (r: Option<OperationResponse>)
        requires
            old(self).0 is Array,
        ensures
            final(self).0 is Array,
            old(self).0.items().len() == 0 ==> r is None && final(self).0.items() == old(self).0.items(),
            old(self).0.items().len() > 0 ==> (r matches Some(o) && o.0 == old(self).0.items().last()
                && final(self).0.items() == old(self).0.items().drop_last()),
    {
        match self.0.array_pop() {
            Some(v) => Some(OperationResponse(v)),
            None => None,
        }
    }
}

impl OperationResponse {
    /// The status code, as an `i64`; it must be there.
    pub fn get_code_as_i64(&self) -> (n: i64)
        requires
            self.0 is Object,
            field_i64(self.0, "code"@) is Some,
        ensures
            Some(n) == field_i64(self.0, "code"@),
    {
        self.0.get_i64_field("code").unwrap()
    }

    /// Sets the status code; the response must be an object. The old code
    /// comes back where it was an `i64`.
    pub fn set_code_as_i64(&mut self, new: i64) -> (r: Option<i64>)
        requires
            old(self).0 is Object,
        ensures
            set_i64_outcome(old(self).0, final(self).0, "code"@, new, r),
    {
        let key = "code".to_owned();
        let ghost k = key;
        let r = self.0.set_i64_field(key, new);
        assert(k@ == "code"@);
        r
    }

    /// The status code, as a `u64`; it must be there.
    pub fn get_code_as_u64(&self) -> (n: u64)
        requires
            self.0 is Object,
            field_u64(self.0, "code"@) is Some,
        ensures
            Some(n) == field_u64(self.0, "code"@),
    {
        self.0.get_u64_field("code").unwrap()
    }

    /// Sets the status code; the response must be an object. The old code
    /// comes back where it was a `u64`.
    pub fn set_code_as_u64(&mut self, new: u64) -> (r: Option<u64>)
        requires
            old(self).0 is Object,
        ensures
            set_u64_outcome(old(self).0, final(self).0, "code"@, new, r),
    {
        let key = "code".to_owned();
        let ghost k = key;
        let r = self.0.set_u64_field(key, new);
        assert(k@ == "code"@);
        r
    }

    /// The data, where the response is an object that has some.
    pub fn get_data(&self) -> (r: Option<&JsonValue>)
        ensures
            match r {
                Some(v) => self.0.field("data"@) == Some(*v),
                None => self.0.field("data"@) is None,
            },
    {
        self.0.get("data")
    }

    /// Sets the data. Only an object changes; the old data comes back.
    pub fn set_data(&mut self, new: OperationResponseData) -> (r: Option<OperationResponseData>)
        ensures
            set_outcome(old(self).0, final(self).0, "data"@, new.0),
            match r {
                Some(d) => old(self).0 is Object && old(self).0.field("data"@) == Some(d.0),
                None => !(old(self).0 is Object) || old(self).0.field("data"@) is None,
            },
    {
        let key = "data".to_owned();
        let ghost k = key;
        let r = self.0.set_field(key, new.0);
        assert(k@ == "data"@);
        match r {
            Some(v) => Some(OperationResponseData(v)),
            None => None,
        }
    }
}

impl OperationResponseData {
    /// Gets the error message of the operation, only where it failed.
    pub fn get_error_as_str(&self) -> (r: Option<&str>)
        ensures
            match r {
                Some(s) => self.0.field("error"@) matches Some(v) && v.str_of() == Some(s@),
                None => !(self.0.field("error"@) matches Some(v) && v.str_of() is Some),
            },
    {
        self.0.get_str_field("error")
    }

    /// Sets the error message of the operation, only where it failed.
    /// Only an object changes; the old value comes back where it was a string.
    pub fn set_error_as_str(&mut self, new: String) -> (r: Option<String>)
        ensures
            set_str_outcome(old(self).0, final(self).0, "error"@, new, r),
    {
        let key = "error".to_owned();
        let ghost k = key;
        let r = self.0.set_str_field(key, new);
        assert(k@ == "error"@);
        r
    }

    /// Gets the size of the object in bytes (stat only), as an `i64`.
    pub fn get_size_as_i64(&self) -> (r: Option<i64>)
        ensures
            r == field_i64(self.0, "fsize"@),
    {
        self.0.get_i64_field("fsize")
    }

    /// Sets the size of the object in bytes (stat only).
    /// Only an object changes; the old value comes back where it was an `i64`.
    pub fn set_size_as_i64(&mut self, new: i64) -> (r: Option<i64>)
        ensures
            set_i64_outcome(old(self).0, final(self).0, "fsize"@, new, r),
    {
        let key = "fsize".to_owned();
        let ghost k = key;
        let r = self.0.set_i64_field(key, new);
        assert(k@ == "fsize"@);
        r
    }

    /// Gets the size of the object in bytes (stat only), as an `u64`.
    pub fn get_size_as_u64(&self) -> (r: Option<u64>)
        ensures
            r == field_u64(self.0, "fsize"@),
    {
        self.0.get_u64_field("fsize")
    }

    /// Sets the size of the object in bytes (stat only).
    /// Only an object changes; the old value comes back where it was an `u64`.
    pub fn set_size_as_u64(&mut self, new: u64) -> (r: Option<u64>)
        ensures
            set_u64_outcome(old(self).0, final(self).0, "fsize"@, new, r),
    {
        let key = "fsize".to_owned();
        let ghost k = key;
        let r = self.0.set_u64_field(key, new);
        assert(k@ == "fsize"@);
        r
    }

    /// Gets the hash of the object (stat only).
    pub fn get_hash_as_str(&self) -> (r: Option<&str>)
        ensures
            match r {
                Some(s) => self.0.field("hash"@) matches Some(v) && v.str_of() == Some(s@),
                None => !(self.0.field("hash"@) matches Some(v) && v.str_of() is Some),
            },
    {
        self.0.get_str_field("hash")
    }

    /// Sets the hash of the object (stat only).
    /// Only an object changes; the old value comes back where it was a string.
    pub fn set_hash_as_str(&mut self, new: String) -> (r: Option<String>)
        ensures
            set_str_outcome(old(self).0, final(self).0, "hash"@, new, r),
    {
        let key = "hash".to_owned();
        let ghost k = key;
        let r = self.0.set_str_field(key, new);
        assert(k@ == "hash"@);
        r
    }

    /// Gets the MIME type of the object (stat only).
    pub fn get_mime_type_as_str(&self) -> (r: Option<&str>)
        ensures
            match r {
                Some(s) => self.0.field("mimeType"@) matches Some(v) && v.str_of() == Some(s@),
                None => !(self.0.field("mimeType"@) matches Some(v) && v.str_of() is Some),
            },
    {
        self.0.get_str_field("mimeType")
    }

    /// Sets the MIME type of the object (stat only).
    /// Only an object changes; the old value comes back where it was a string.
    pub fn set_mime_type_as_str(&mut self, new: String) -> (r: Option<String>)
        ensures
            set_str_outcome(old(self).0, final(self).0, "mimeType"@, new, r),
    {
        let key = "mimeType".to_owned();
        let ghost k = key;
        let r = self.0.set_str_field(key, new);
        assert(k@ == "mimeType"@);
        r
    }

    /// Gets the storage class of the object (stat only), as an `i64`.
    pub fn get_type_as_i64(&self) -> (r: Option<i64>)
        ensures
            r == field_i64(self.0, "type"@),
    {
        self.0.get_i64_field("type")
    }

    /// Sets the storage class of the object (stat only).
    /// Only an object changes; the old value comes back where it was an `i64`.
    pub fn set_type_as_i64(&mut self, new: i64) -> (r: Option<i64>)
        ensures
            set_i64_outcome(old(self).0, final(self).0, "type"@, new, r),
    {
        let key = "type".to_owned();
        let ghost k = key;
        let r = self.0.set_i64_field(key, new);
        assert(k@ == "type"@);
        r
    }

    /// Gets the storage class of the object (stat only), as an `u64`.
    pub fn get_type_as_u64(&self) -> (r: Option<u64>)
        ensures
            r == field_u64(self.0, "type"@),
    {
        self.0.get_u64_field("type")
    }

    /// Sets the storage class of the object (stat only).
    /// Only an object changes; the old value comes back where it was an `u64`.
    pub fn set_type_as_u64(&mut self, new: u64) -> (r: Option<u64>)
        ensures
            set_u64_outcome(old(self).0, final(self).0, "type"@, new, r),
    {
        let key = "type".to_owned();
        let ghost k = key;
        let r = self.0.set_u64_field(key, new);
        assert(k@ == "type"@);
        r
    }

    /// Gets the upload time, in units of 100 ns (stat only), as an `i64`.
    pub fn get_put_time_as_i64(&self) -> (r: Option<i64>)
        ensures
            r == field_i64(self.0, "putTime"@),
    {
        self.0.get_i64_field("putTime")
    }

    /// Sets the upload time, in units of 100 ns (stat only).
    /// Only an object changes; the old value comes back where it was an `i64`.
    pub fn set_put_time_as_i64(&mut self, new: i64) -> (r: Option<i64>)
        ensures
            set_i64_outcome(old(self).0, final(self).0, "putTime"@, new, r),
    {
        let key = "putTime".to_owned();
        let ghost k = key;
        let r = self.0.set_i64_field(key, new);
        assert(k@ == "putTime"@);
        r
    }

    /// Gets the upload time, in units of 100 ns (stat only), as an `u64`.
    pub fn get_put_time_as_u64(&self) -> (r: Option<u64>)
        ensures
            r == field_u64(self.0, "putTime"@),
    {
        self.0.get_u64_field("putTime")
    }

    /// Sets the upload time, in units of 100 ns (stat only).
    /// Only an object changes; the old value comes back where it was an `u64`.
    pub fn set_put_time_as_u64(&mut self, new: u64) -> (r: Option<u64>)
        ensures
            set_u64_outcome(old(self).0, final(self).0, "putTime"@, new, r),
    {
        let key = "putTime".to_owned();
        let ghost k = key;
        let r = self.0.set_u64_field(key, new);
        assert(k@ == "putTime"@);
        r
    }

    /// Gets the unfreezing status of an archived object (stat only), as an `i64`.
    pub fn get_unfreezing_status_as_i64(&self) -> (r: Option<i64>)
        ensures
            r == field_i64(self.0, "restoreStatus"@),
    {
        self.0.get_i64_field("restoreStatus")
    }

    /// Sets the unfreezing status of an archived object (stat only).
    /// Only an object changes; the old value comes back where it was an `i64`.
    pub fn set_unfreezing_status_as_i64(&mut self, new: i64) -> (r: Option<i64>)
        ensures
            set_i64_outcome(old(self).0, final(self).0, "restoreStatus"@, new, r),
    {
        let key = "restoreStatus".to_owned();
        let ghost k = key;
        let r = self.0.set_i64_field(key, new);
        assert(k@ == "restoreStatus"@);
        r
    }

    /// Gets the unfreezing status of an archived object (stat only), as an `u64`.
    pub fn get_unfreezing_status_as_u64(&self) -> (r: Option<u64>)
        ensures
            r == field_u64(self.0, "restoreStatus"@),
    {
        self.0.get_u64_field("restoreStatus")
    }

    /// Sets the unfreezing status of an archived object (stat only).
    /// Only an object changes; the old value comes back where it was an `u64`.
    pub fn set_unfreezing_status_as_u64(&mut self, new: u64) -> (r: Option<u64>)
        ensures
            set_u64_outcome(old(self).0, final(self).0, "restoreStatus"@, new, r),
    {
        let key = "restoreStatus".to_owned();
        let ghost k = key;
        let r = self.0.set_u64_field(key, new);
        assert(k@ == "restoreStatus"@);
        r
    }

    /// Gets whether the object is disabled (stat only), as an `i64`.
    pub fn get_status_as_i64(&self) -> (r: Option<i64>)
        ensures
            r == field_i64(self.0, "status"@),
    {
        self.0.get_i64_field("status")
    }

    /// Sets whether the object is disabled (stat only).
    /// Only an object changes; the old value comes back where it was an `i64`.
    pub fn set_status_as_i64(&mut self, new: i64) -> (r: Option<i64>)
        ensures
            set_i64_outcome(old(self).0, final(self).0, "status"@, new, r),
    {
        let key = "status".to_owned();
        let ghost k = key;
        let r = self.0.set_i64_field(key, new);
        assert(k@ == "status"@);
        r
    }

    /// Gets whether the object is disabled (stat only), as an `u64`.
    pub fn get_status_as_u64(&self) -> (r: Option<u64>)
        ensures
            r == field_u64(self.0, "status"@),
    {
        self.0.get_u64_field("status")
    }

    /// Sets whether the object is disabled (stat only).
    /// Only an object changes; the old value comes back where it was an `u64`.
    pub fn set_status_as_u64(&mut self, new: u64) -> (r: Option<u64>)
        ensures
            set_u64_outcome(old(self).0, final(self).0, "status"@, new, r),
    {
        let key = "status".to_owned();
        let ghost k = key;
        let r = self.0.set_u64_field(key, new);
        assert(k@ == "status"@);
        r
    }

    /// Gets the MD5 of the object (stat only).
    pub fn get_md_5_as_str(&self) -> (r: Option<&str>)
        ensures
            match r {
                Some(s) => self.0.field("md5"@) matches Some(v) && v.str_of() == Some(s@),
                None => !(self.0.field("md5"@) matches Some(v) && v.str_of() is Some),
            },
    {
        self.0.get_str_field("md5")
    }

    /// Sets the MD5 of the object (stat only).
    /// Only an object changes; the old value comes back where it was a string.
    pub fn set_md_5_as_str(&mut self, new: String) -> (r: Option<String>)
        ensures
            set_str_outcome(old(self).0, final(self).0, "md5"@, new, r),
    {
        let key = "md5".to_owned();
        let ghost k = key;
        let r = self.0.set_str_field(key, new);
        assert(k@ == "md5"@);
        r
    }

    /// Gets the expiration time, in seconds (stat only), as an `i64`.
    pub fn get_expiration_time_as_i64(&self) -> (r: Option<i64>)
        ensures
            r == field_i64(self.0, "expiration"@),
    {
        self.0.get_i64_field("expiration")
    }

    /// Sets the expiration time, in seconds (stat only).
    /// Only an object changes; the old value comes back where it was an `i64`.
    pub fn set_expiration_time_as_i64(&mut self, new: i64) -> (r: Option<i64>)
        ensures
            set_i64_outcome(old(self).0, final(self).0, "expiration"@, new, r),
    {
        let key = "expiration".to_owned();
        let ghost k = key;
        let r = self.0.set_i64_field(key, new);
        assert(k@ == "expiration"@);
        r
    }

    /// Gets the expiration time, in seconds (stat only), as an `u64`.
    pub fn get_expiration_time_as_u64(&self) -> (r: Option<u64>)
        ensures
            r == field_u64(self.0, "expiration"@),
    {
        self.0.get_u64_field("expiration")
    }

    /// Sets the expiration time, in seconds (stat only).
    /// Only an object changes; the old value comes back where it was an `u64`.
    pub fn set_expiration_time_as_u64(&mut self, new: u64) -> (r: Option<u64>)
        ensures
            set_u64_outcome(old(self).0, final(self).0, "expiration"@, new, r),
    {
        let key = "expiration".to_owned();
        let ghost k = key;
        let r = self.0.set_u64_field(key, new);
        assert(k@ == "expiration"@);
        r
    }

    /// Gets the time of the move to infrequent access, in seconds (stat only), as an `i64`.
    pub fn get_transition_to_ia_time_as_i64(&self) -> (r: Option<i64>)
        ensures
            r == field_i64(self.0, "transitionToIA"@),
    {
        self.0.get_i64_field("transitionToIA")
    }

    /// Sets the time of the move to infrequent access, in seconds (stat only).
    /// Only an object changes; the old value comes back where it was an `i64`.
    pub fn set_transition_to_ia_time_as_i64(&mut self, new: i64) -> (r: Option<i64>)
        ensures
            set_i64_outcome(old(self).0, final(self).0, "transitionToIA"@, new, r),
    {
        let key = "transitionToIA".to_owned();
        let ghost k = key;
        let r = self.0.set_i64_field(key, new);
        assert(k@ == "transitionToIA"@);
        r
    }

    /// Gets the time of the move to infrequent access, in seconds (stat only), as an `u64`.
    pub fn get_transition_to_ia_time_as_u64(&self) -> (r: Option<u64>)
        ensures
            r == field_u64(self.0, "transitionToIA"@),
    {
        self.0.get_u64_field("transitionToIA")
    }

    /// Sets the time of the move to infrequent access, in seconds (stat only).
    /// Only an object changes; the old value comes back where it was an `u64`.
    pub fn set_transition_to_ia_time_as_u64(&mut self, new: u64) -> (r: Option<u64>)
        ensures
            set_u64_outcome(old(self).0, final(self).0, "transitionToIA"@, new, r),
    {
        let key = "transitionToIA".to_owned();
        let ghost k = key;
        let r = self.0.set_u64_field(key, new);
        assert(k@ == "transitionToIA"@);
        r
    }

    /// Gets the time of the move to archive, in seconds (stat only), as an `i64`.
    pub fn get_transition_to_archive_time_as_i64(&self) -> (r: Option<i64>)
        ensures
            r == field_i64(self.0, "transitionToARCHIVE"@),
    {
        self.0.get_i64_field("transitionToARCHIVE")
    }

    /// Sets the time of the move to archive, in seconds (stat only).
    /// Only an object changes; the old value comes back where it was an `i64`.
    pub fn set_transition_to_archive_time_as_i64(&mut self, new: i64) -> (r: Option<i64>)
        ensures
            set_i64_outcome(old(self).0, final(self).0, "transitionToARCHIVE"@, new, r),
    {
        let key = "transitionToARCHIVE".to_owned();
        let ghost k = key;
        let r = self.0.set_i64_field(key, new);
        assert(k@ == "transitionToARCHIVE"@);
        r
    }

    /// Gets the time of the move to archive, in seconds (stat only), as an `u64`.
    pub fn get_transition_to_archive_time_as_u64(&self) -> (r: Option<u64>)
        ensures
            r == field_u64(self.0, "transitionToARCHIVE"@),
    {
        self.0.get_u64_field("transitionToARCHIVE")
    }

    /// Sets the time of the move to archive, in seconds (stat only).
    /// Only an object changes; the old value comes back where it was an `u64`.
    pub fn set_transition_to_archive_time_as_u64(&mut self, new: u64) -> (r: Option<u64>)
        ensures
            set_u64_outcome(old(self).0, final(self).0, "transitionToARCHIVE"@, new, r),
    {
        let key = "transitionToARCHIVE".to_owned();
        let ghost k = key;
        let r = self.0.set_u64_field(key, new);
        assert(k@ == "transitionToARCHIVE"@);
        r
    }
}

} // verus!
