//! Upload policies: the JSON document that an upload token signs, with its
//! scope (`bucket` or `bucket:key`), deadline and optional return body.

use crate::text::{ascii_chars, decimal, decimal_string, index_of_byte, split_at_first_colon};
use vstd::prelude::*;
use vstd::string::*;
use vstd::utf8::*;

verus! {

/// What `serde_json` makes of `bytes` read as a JSON value and written back
/// as text, where they are JSON at all.
pub uninterp spec fn json_normal_form(bytes: Seq<u8>) -> Option<Seq<char>>;

/// The string value of the field `name` of the JSON object `json`, where it
/// is an object and the field holds a string.
pub uninterp spec fn json_string_field(json: Seq<char>, name: Seq<char>) -> Option<Seq<char>>;

/// The JSON string literal of `s`, quoted and escaped as `serde_json`
/// writes it.
pub uninterp spec fn json_string_literal(s: Seq<char>) -> Seq<char>;

/// Reads `bytes` as a JSON value with `serde_json::from_slice` and writes
/// it back with its `to_string`; gives the message of the parse error where
/// the bytes are no JSON. The text is named, not stated.
#[verifier::external_body]
fn reserialize_json(bytes: &[u8]) -> (r: Result<String, String>)
    ensures
        match r {
            Ok(s) => json_normal_form(bytes@) == Some(s@),
            Err(_) => json_normal_form(bytes@) is None,
        },
{
    match serde_json::from_slice::<serde_json::Value>(bytes) {
        Ok(v) => Ok(v.to_string()),
        Err(e) => Err(e.to_string()),
    }
}

/// The string field `name` of the JSON object `json`, read with
/// `serde_json::from_str` into a `Value`, then `get` and `as_str`.
#[verifier::external_body]
fn string_field(json: &str, name: &str) -> (r: Option<String>)
    ensures
        match r {
            Some(s) => json_string_field(json@, name@) == Some(s@),
            None => json_string_field(json@, name@) is None,
        },
{
    match serde_json::from_str::<serde_json::Value>(json) {
        Ok(v) => match v.get(name).and_then(serde_json::Value::as_str) {
            Some(s) => Some(s.to_owned()),
            None => None,
        },
        Err(_) => None,
    }
}

/// `s` as a JSON string literal, written by `serde_json::to_string`, which
/// cannot fail on a string.
#[verifier::external_body]
fn quote_json(s: &str) -> (r: String)
    ensures
        r@ == json_string_literal(s@),
{
    serde_json::to_string(s).unwrap()
}

/// The current time by `std::time::SystemTime::now`, as whole seconds since
/// the Unix epoch (0 where the clock is before it). It is the clock's
/// reading; nothing is stated of it.
#[verifier::external_body]
fn unix_now_secs() -> (now: u64) {
    match std::time::SystemTime::now().duration_since(std::time::UNIX_EPOCH) {
        Ok(d) => d.as_secs(),
        Err(_) => 0,
    }
}

/// The deadline `lifetime` seconds after `now`, capped at the largest `u64`.
pub open spec fn deadline_after(now: u64, lifetime: u64) -> nat {
    if now + lifetime <= u64::MAX {
        (now + lifetime) as nat
    } else {
        u64::MAX as nat
    }
}

/// The scope of a policy for a bucket, or for one object in it.
pub open spec fn scope_of(bucket: Seq<char>, key: Option<Seq<char>>) -> Seq<char> {
    match key {
        Some(k) => bucket + seq![':'] + k,
        None => bucket,
    }
}

/// The JSON text of a built policy: the deadline, the return body where it
/// is set, and the scope, as the fields of one object in that order.
pub open spec fn policy_json(scope: Seq<char>, deadline: nat, return_body: Option<Seq<char>>) -> Seq<char> {
    "{\"deadline\":"@ + ascii_chars(decimal(deadline)) + (match return_body {
        Some(b) => ",\"returnBody\":"@ + json_string_literal(b),
        None => seq![],
    }) + ",\"scope\":"@ + json_string_literal(scope) + "}"@
}

/// An upload policy, held as its JSON text.
#[derive(Debug, Clone)]
pub struct UploadPolicy {
    json: String,
}

impl View for UploadPolicy {
    type V = Seq<char>;

    closed spec fn view(&self) -> Seq<char> {
        self.json@
    }
}

impl UploadPolicy {
    /// The policy in the JSON `bytes`, as `serde_json` writes it back; the
    /// parse error message where they are no JSON.
    pub fn from_json(bytes: &[u8]) -> (r: Result<Self, String>)
        ensures
            match r {
                Ok(p) => json_normal_form(bytes@) == Some(p@),
                Err(_) => json_normal_form(bytes@) is None,
            },
    {
        match reserialize_json(bytes) {
            Ok(json) => Ok(UploadPolicy { json }),
            Err(message) => Err(message),
        }
    }

    /// The JSON text.
    pub fn as_json(&self) -> (s: &str)
        ensures
            s@ == self@,
    {
        self.json.as_str()
    }

    /// A copy.
    pub fn duplicate(&self) -> (p: Self)
        ensures
            p@ == self@,
    {
        UploadPolicy { json: self.json.clone() }
    }

    /// The bucket: the scope up to its first `:`.
    pub fn bucket(&self) -> (r: Option<String>)
        ensures
            match json_string_field(self@, "scope"@) {
                Some(scope) => r matches Some(b) && encode_utf8(b@) == encode_utf8(scope).take(
                    index_of_byte(encode_utf8(scope), 58u8, 0),
                ),
                None => r is None,
            },
    {
        proof {
            reveal_strlit("scope");
        }
        match string_field(self.json.as_str(), "scope") {
            Some(scope) => {
                let (bucket, _) = split_at_first_colon(scope.as_str());
                Some(bucket.to_owned())
            },
            None => None,
        }
    }

    /// The key: the scope after its first `:`, where there is one.
    pub fn key(&self) -> (r: Option<String>)
        ensures
            match json_string_field(self@, "scope"@) {
                Some(scope) => {
                    let b = encode_utf8(scope);
                    let i = index_of_byte(b, 58u8, 0);
                    if i < b.len() {
                        r matches Some(k) && encode_utf8(k@) == b.skip(i + 1)
                    } else {
                        r is None
                    }
                },
                None => r is None,
            },
    {
        proof {
            reveal_strlit("scope");
        }
        match string_field(self.json.as_str(), "scope") {
            Some(scope) => {
                let (_, key) = split_at_first_colon(scope.as_str());
                match key {
                    Some(k) => Some(k.to_owned()),
                    None => None,
                }
            },
            None => None,
        }
    }

    /// The return body template, where there is one.
    pub fn return_body(&self) -> (r: Option<String>)
        ensures
            match r {
                Some(b) => json_string_field(self@, "returnBody"@) == Some(b@),
                None => json_string_field(self@, "returnBody"@) is None,
            },
    {
        proof {
            reveal_strlit("returnBody");
        }
        string_field(self.json.as_str(), "returnBody")
    }
}

/// Builds an upload policy.
#[derive(Debug, Clone)]
pub struct UploadPolicyBuilder {
    scope: String,
    deadline: u64,
    return_body: Option<String>,
}

impl UploadPolicyBuilder {
    /// The scope.
    pub closed spec fn scope_view(self) -> Seq<char> {
        self.scope@
    }

    /// The deadline, in seconds since the Unix epoch.
    pub closed spec fn deadline_view(self) -> nat {
        self.deadline as nat
    }

    /// The return body template, where it is set.
    pub closed spec fn return_body_view(self) -> Option<Seq<char>> {
        match self.return_body {
            Some(b) => Some(b@),
            None => None,
        }
    }

    /// A policy for uploads to `bucket`, valid for `upload_token_lifetime`
    /// seconds from `now` (seconds since the Unix epoch); a deadline past
    /// the largest `u64` is that largest value.
    pub fn new_policy_for_bucket_at(bucket: String, upload_token_lifetime: u64, now: u64) -> (b: Self)
        ensures
            b.scope_view() == scope_of(bucket@, None),
            b.deadline_view() == deadline_after(now, upload_token_lifetime),
            now + upload_token_lifetime <= u64::MAX ==> b.deadline_view() == now
                + upload_token_lifetime,
            now + upload_token_lifetime > u64::MAX ==> b.deadline_view() == u64::MAX,
            b.deadline_view() >= now,
            b.deadline_view() >= upload_token_lifetime,
            b.return_body_view() is None,
    {
        UploadPolicyBuilder { scope: bucket, deadline: now.saturating_add(upload_token_lifetime), return_body: None }
    }

    /// A policy for uploads to `bucket`, valid for `upload_token_lifetime`
    /// seconds from now, by the system clock.
    pub fn new_policy_for_bucket(bucket: String, upload_token_lifetime: u64) -> (b: Self)
        ensures
            b.scope_view() == scope_of(bucket@, None),
            exists|now: u64| b.deadline_view() == deadline_after(now, upload_token_lifetime),
            b.deadline_view() >= upload_token_lifetime,
            b.return_body_view() is None,
    {
        let now = unix_now_secs();
        Self::new_policy_for_bucket_at(bucket, upload_token_lifetime, now)
    }

    /// A policy for uploads of the object `key` to `bucket`, valid for
    /// `upload_token_lifetime` seconds from `now` (seconds since the Unix
    /// epoch); a deadline past the largest `u64` is that largest value.
    pub fn new_policy_for_object_at(bucket: String, key: String, upload_token_lifetime: u64, now: u64) -> (b: Self)
        ensures
            b.scope_view() == scope_of(bucket@, Some(key@)),
            b.deadline_view() == deadline_after(now, upload_token_lifetime),
            now + upload_token_lifetime <= u64::MAX ==> b.deadline_view() == now
                + upload_token_lifetime,
            now + upload_token_lifetime > u64::MAX ==> b.deadline_view() == u64::MAX,
            b.deadline_view() >= now,
            b.deadline_view() >= upload_token_lifetime,
            b.return_body_view() is None,
    {
        let mut scope = bucket;
        proof {
            reveal_strlit(":");
        }
        scope.append(":");
        scope.append(key.as_str());
        UploadPolicyBuilder { scope, deadline: now.saturating_add(upload_token_lifetime), return_body: None }
    }

    /// A policy for uploads of the object `key` to `bucket`, valid for
    /// `upload_token_lifetime` seconds from now, by the system clock.
    pub fn new_policy_for_object(bucket: String, key: String, upload_token_lifetime: u64) -> (b: Self)
        ensures
            b.scope_view() == scope_of(bucket@, Some(key@)),
            exists|now: u64| b.deadline_view() == deadline_after(now, upload_token_lifetime),
            b.deadline_view() >= upload_token_lifetime,
            b.return_body_view() is None,
    {
        let now = unix_now_secs();
        Self::new_policy_for_object_at(bucket, key, upload_token_lifetime, now)
    }

    /// Sets the return body template.
    pub fn return_body(self, body: String) -> (b: Self)
        ensures
            b.scope_view() == self.scope_view(),
            b.deadline_view() == self.deadline_view(),
            b.return_body_view() == Some(body@),
    {
        UploadPolicyBuilder { return_body: Some(body), ..self }
    }

    /// The policy.
    pub fn build(self) -> (p: UploadPolicy)
        ensures
            p@ == policy_json(self.scope_view(), self.deadline_view(), self.return_body_view()),
    {
        let mut json = "{\"deadline\":".to_owned();
        let digits = decimal_string(self.deadline);
        json.append(digits.as_str());
        if let Some(body) = &self.return_body {
            json.append(",\"returnBody\":");
            let quoted = quote_json(body.as_str());
            json.append(quoted.as_str());
        }
        json.append(",\"scope\":");
        let quoted = quote_json(self.scope.as_str());
        json.append(quoted.as_str());
        json.append("}");
        UploadPolicy { json }
    }
}

} // verus!
