//! The JSON bodies of the call that completes a multipart upload: the
//! request body (parts, file name, MIME type, metadata, custom variables)
//! and the information of one part (number and etag).

use crate::json::{first_field, with_field, JsonValue};
use vstd::prelude::*;
use vstd::string::*;

verus! {

/// A JSON object of string values.
#[derive(Debug)]
pub struct StringMap(pub JsonValue);

/// The information of one uploaded part.
#[derive(Debug)]
pub struct PartInfo(pub JsonValue);

/// The body of the request.
#[derive(Debug)]
pub struct RequestBody(pub JsonValue);

/// The old value of a field, where it was a string.
pub open spec fn old_str(old: Option<JsonValue>) -> Option<Seq<char>> {
    match old {
        Some(v) => v.str_of(),
        None => None,
    }
}

/// Sets a field of an object; gives the old value where it was a string.
fn set_str_field(value: &mut JsonValue, key: String, new: String) -> (r: Option<String>)
    requires
        *old(value) is Object,
    ensures
        *final(value) is Object,
        final(value).fields() == with_field(old(value).fields(), key, JsonValue::Str(new)),
        match r {
            Some(s) => old_str(first_field(old(value).fields(), key@)) == Some(s@),
            None => old_str(first_field(old(value).fields(), key@)) is None,
        },
{
    match value.insert(key, JsonValue::from_string(new)) {
        Some(v) => v.into_string(),
        None => None,
    }
}

impl PartInfo {
    /// The JSON of the part.
    pub closed spec fn json(&self) -> JsonValue {
        self.0
    }

    /// The part number, as an `i64`; it must be there.
    pub fn get_part_number_as_int(&self) -> (n: i64)
        requires
            self.json() is Object,
            self.json().field("partNumber"@) matches Some(v) && v.i64_of() is Some,
        ensures
            Some(n) == self.json().field("partNumber"@).unwrap().i64_of(),
    {
        proof {
            reveal_strlit("partNumber");
        }
        let v = self.0.get("partNumber").unwrap();
        v.as_i64().unwrap()
    }

    /// Sets the part number; gives the old one where it was an `i64`.
    pub fn set_part_number_as_int(&mut self, new: i64) -> (r: Option<i64>)
        requires
            old(self).json() is Object,
        ensures
            final(self).json() is Object,
            final(self).json().field("partNumber"@) matches Some(v) && v.i64_of() == Some(new),
            r == match old(self).json().field("partNumber"@) {
                Some(v) => v.i64_of(),
                None => None,
            },
    {
        proof {
            reveal_strlit("partNumber");
        }
        let key = "partNumber".to_owned();
        let value = JsonValue::from_i64(new);
        let ghost k = key;
        let ghost nv = value;
        let old_value = self.0.insert(key, value);
        proof {
            crate::json::field_reads_back_what_was_set(old(self).json().fields(), k, nv, k@);
        }
        match old_value {
            Some(v) => v.as_i64(),
            None => None,
        }
    }

    /// The part number, as a `u64`; it must be there.
    pub fn get_part_number_as_uint(&self) -> (n: u64)
        requires
            self.json() is Object,
            self.json().field("partNumber"@) matches Some(v) && v.u64_of() is Some,
        ensures
            Some(n) == self.json().field("partNumber"@).unwrap().u64_of(),
    {
        proof {
            reveal_strlit("partNumber");
        }
        let v = self.0.get("partNumber").unwrap();
        v.as_u64().unwrap()
    }

    /// Sets the part number; gives the old one where it was a `u64`.
    pub fn set_part_number_as_uint(&mut self, new: u64) -> (r: Option<u64>)
        requires
            old(self).json() is Object,
        ensures
            final(self).json() is Object,
            final(self).json().field("partNumber"@) == Some(JsonValue::PosInt(new)),
            r == match old(self).json().field("partNumber"@) {
                Some(v) => v.u64_of(),
                None => None,
            },
    {
        proof {
            reveal_strlit("partNumber");
        }
        let key = "partNumber".to_owned();
        let ghost k = key;
        let old_value = self.0.insert(key, JsonValue::from_u64(new));
        proof {
            crate::json::field_reads_back_what_was_set(old(self).json().fields(), k, JsonValue::PosInt(new), k@);
        }
        match old_value {
            Some(v) => v.as_u64(),
            None => None,
        }
    }

    /// The etag; it must be there.
    pub fn get_etag_as_str(&self) -> (s: &str)
        requires
            self.json() is Object,
            self.json().field("etag"@) matches Some(v) && v.str_of() is Some,
        ensures
            Some(s@) == self.json().field("etag"@).unwrap().str_of(),
    {
        proof {
            reveal_strlit("etag");
        }
        let v = self.0.get("etag").unwrap();
        v.as_str().unwrap()
    }

    /// Sets the etag; gives the old one where it was a string.
    pub fn set_etag_as_str(&mut self, new: String) -> (r: Option<String>)
        requires
            old(self).json() is Object,
        ensures
            final(self).json() is Object,
            final(self).json().field("etag"@) == Some(JsonValue::Str(new)),
            match r {
                Some(s) => old_str(old(self).json().field("etag"@)) == Some(s@),
                None => old_str(old(self).json().field("etag"@)) is None,
            },
    {
        proof {
            reveal_strlit("etag");
        }
        let key = "etag".to_owned();
        let ghost k = key;
        let r = set_str_field(&mut self.0, key, new);
        proof {
            crate::json::field_reads_back_what_was_set(old(self).json().fields(), k, JsonValue::Str(new), k@);
        }
        r
    }
}

impl RequestBody {
    /// The JSON of the body.
    pub closed spec fn json(&self) -> JsonValue {
        self.0
    }

    /// The parts; they must be there.
    pub fn get_parts(&self) -> (p: &JsonValue)
        requires
            self.json() is Object,
            self.json().field("parts"@) is Some,
        ensures
            Some(*p) == self.json().field("parts"@),
    {
        proof {
            reveal_strlit("parts");
        }
        self.0.get("parts").unwrap()
    }

    /// Sets the parts; gives the old ones where there were any.
    pub fn set_parts(&mut self, new: PartInfo) -> (r: Option<PartInfo>)
        requires
            old(self).json() is Object,
        ensures
            final(self).json() is Object,
            final(self).json().field("parts"@) == Some(new.json()),
            match r {
                Some(p) => old(self).json().field("parts"@) == Some(p.json()),
                None => old(self).json().field("parts"@) is None,
            },
    {
        proof {
            reveal_strlit("parts");
        }
        let key = "parts".to_owned();
        let ghost k = key;
        let old_value = self.0.insert(key, new.0);
        proof {
            crate::json::field_reads_back_what_was_set(old(self).json().fields(), k, new.json(), k@);
        }
        match old_value {
            Some(v) => Some(PartInfo(v)),
            None => None,
        }
    }

    /// A string field of the body, where it is an object that has it.
    fn get_str(&self, key: &str) -> (r: Option<&str>)
        ensures
            match r {
                Some(s) => self.json().field(key@) matches Some(v) && v.str_of() == Some(s@),
                None => !(self.json().field(key@) matches Some(v) && v.str_of() is Some),
            },
    {
        match self.0.get(key) {
            Some(v) => v.as_str(),
            None => None,
        }
    }

    /// Sets a string field where the body is an object.
    fn set_str(&mut self, key: String, new: String) -> (r: Option<String>)
        ensures
            old(self).json() is Object ==> final(self).json().field(key@) == Some(JsonValue::Str(new)),
            old(self).json() is Object ==> match r {
                Some(s) => old_str(old(self).json().field(key@)) == Some(s@),
                None => old_str(old(self).json().field(key@)) is None,
            },
            !(old(self).json() is Object) ==> r is None && final(self).json() == old(self).json(),
    {
        match &self.0 {
            JsonValue::Object(_) => {
                let ghost k = key;
                let r = set_str_field(&mut self.0, key, new);
                proof {
                    crate::json::field_reads_back_what_was_set(old(self).json().fields(), k, JsonValue::Str(new), k@);
                }
                r
            },
            _ => None,
        }
    }

    /// Sets an object field where the body is an object.
    fn set_map(&mut self, key: String, new: StringMap) -> (r: Option<StringMap>)
        ensures
            old(self).json() is Object ==> final(self).json().field(key@) == Some(new.0),
            old(self).json() is Object ==> match r {
                Some(m) => old(self).json().field(key@) == Some(m.0),
                None => old(self).json().field(key@) is None,
            },
            !(old(self).json() is Object) ==> r is None && final(self).json() == old(self).json(),
    {
        match &self.0 {
            JsonValue::Object(_) => {
                let ghost k = key;
                let ghost nv = new.0;
                let old_value = self.0.insert(key, new.0);
                proof {
                    crate::json::field_reads_back_what_was_set(old(self).json().fields(), k, nv, k@);
                }
                match old_value {
                    Some(v) => Some(StringMap(v)),
                    None => None,
                }
            },
            _ => None,
        }
    }

    /// The original file name, where it is given.
    pub fn get_file_name_as_str(&self) -> (r: Option<&str>)
        ensures
            match r {
                Some(s) => self.json().field("fname"@) matches Some(v) && v.str_of() == Some(s@),
                None => !(self.json().field("fname"@) matches Some(v) && v.str_of() is Some),
            },
    {
        self.get_str("fname")
    }

    /// Sets the original file name; gives the old one.
    pub fn set_file_name_as_str(&mut self, new: String) -> (r: Option<String>)
        ensures
            old(self).json() is Object ==> final(self).json().field("fname"@) == Some(JsonValue::Str(new)),
            old(self).json() is Object ==> match r {
                Some(s) => old_str(old(self).json().field("fname"@)) == Some(s@),
                None => old_str(old(self).json().field("fname"@)) is None,
            },
            !(old(self).json() is Object) ==> r is None && final(self).json() == old(self).json(),
    {
        proof {
            reveal_strlit("fname");
        }
        self.set_str("fname".to_owned(), new)
    }

    /// The MIME type, where it is given.
    pub fn get_mime_type_as_str(&self) -> (r: Option<&str>)
        ensures
            match r {
                Some(s) => self.json().field("mime_type"@) matches Some(v) && v.str_of() == Some(s@),
                None => !(self.json().field("mime_type"@) matches Some(v) && v.str_of() is Some),
            },
    {
        self.get_str("mime_type")
    }

    /// Sets the MIME type; gives the old one.
    pub fn set_mime_type_as_str(&mut self, new: String) -> (r: Option<String>)
        ensures
            old(self).json() is Object ==> final(self).json().field("mime_type"@) == Some(JsonValue::Str(new)),
            old(self).json() is Object ==> match r {
                Some(s) => old_str(old(self).json().field("mime_type"@)) == Some(s@),
                None => old_str(old(self).json().field("mime_type"@)) is None,
            },
            !(old(self).json() is Object) ==> r is None && final(self).json() == old(self).json(),
    {
        proof {
            reveal_strlit("mime_type");
        }
        self.set_str("mime_type".to_owned(), new)
    }

    /// The metadata, where they are given.
    pub fn get_metadata(&self) -> (r: Option<&JsonValue>)
        ensures
            match r {
                Some(v) => self.json().field("metadata"@) == Some(*v),
                None => self.json().field("metadata"@) is None,
            },
    {
        self.0.get("metadata")
    }

    /// Sets the metadata; gives the old ones.
    pub fn set_metadata(&mut self, new: StringMap) -> (r: Option<StringMap>)
        ensures
            old(self).json() is Object ==> final(self).json().field("metadata"@) == Some(new.0),
            old(self).json() is Object ==> match r {
                Some(m) => old(self).json().field("metadata"@) == Some(m.0),
                None => old(self).json().field("metadata"@) is None,
            },
            !(old(self).json() is Object) ==> r is None && final(self).json() == old(self).json(),
    {
        proof {
            reveal_strlit("metadata");
        }
        self.set_map("metadata".to_owned(), new)
    }

    /// The custom variables, where they are given.
    pub fn get_custom_vars(&self) -> (r: Option<&JsonValue>)
        ensures
            match r {
                Some(v) => self.json().field("customVars"@) == Some(*v),
                None => self.json().field("customVars"@) is None,
            },
    {
        self.0.get("customVars")
    }

    /// Sets the custom variables; gives the old ones.
    pub fn set_custom_vars(&mut self, new: StringMap) -> (r: Option<StringMap>)
        ensures
            old(self).json() is Object ==> final(self).json().field("customVars"@) == Some(new.0),
            old(self).json() is Object ==> match r {
                Some(m) => old(self).json().field("customVars"@) == Some(m.0),
                None => old(self).json().field("customVars"@) is None,
            },
            !(old(self).json() is Object) ==> r is None && final(self).json() == old(self).json(),
    {
        proof {
            reveal_strlit("customVars");
        }
        self.set_map("customVars".to_owned(), new)
    }
}

} // verus!
