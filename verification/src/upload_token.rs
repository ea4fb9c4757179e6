//! Upload tokens: `AccessKey:signature:policy`, where the policy is the
//! URL-safe Base64 of the upload policy's JSON and the signature signs that
//! Base64. A token can be made from a policy and a credential, or read back
//! into its AccessKey and policy.

use crate::base64::{
    lemma_decoding_inverts_encoding, lemma_encoding_has_no_colon, lemma_encoding_shape,
    urlsafe_decode, urlsafe_decoding, urlsafe_encoding,
};
use crate::credential::{
    signature, signature_with_data, AccessKey, CredentialGetError, CredentialProvider, GetOptions,
    GotCredential,
};
use crate::digest::hmac_sha1;
use crate::text::{
    ascii_chars, index_of_byte, lemma_ascii_roundtrip, lemma_encode_utf8_concat,
    lemma_index_of_byte_is, split_at_first_colon,
};
use crate::upload_policy::{json_normal_form, UploadPolicy};
use vstd::prelude::*;
use vstd::utf8::*;

verus! {

/// Options for getting the AccessKey of a token.
#[derive(Clone, Debug, Default)]
pub struct GetAccessKeyOptions {}

/// Options for getting the policy of a token.
#[derive(Clone, Debug, Default)]
pub struct GetPolicyOptions {}

/// Options for writing a token.
#[derive(Clone, Debug, Default)]
pub struct ToStringOptions {}

/// An AccessKey read from a token.
#[derive(Debug)]
pub struct GotAccessKey(AccessKey);

impl GotAccessKey {
    /// The AccessKey.
    pub closed spec fn key_view(&self) -> Seq<char> {
        self.0@
    }

    /// Wraps an AccessKey.
    pub fn new(key: AccessKey) -> (g: Self)
        ensures
            g.key_view() == key@,
    {
        GotAccessKey(key)
    }

    /// The AccessKey.
    pub fn access_key(&self) -> (k: &AccessKey)
        ensures
            k@ == self.key_view(),
    {
        &self.0
    }

    /// The AccessKey, to change.
    pub fn access_key_mut(&mut self) -> (k: &mut AccessKey)
        ensures
            k@ == old(self).key_view(),
            final(self).key_view() == final(k)@,
    {
        &mut self.0
    }

    /// The AccessKey.
    pub fn into_access_key(self) -> (k: AccessKey)
        ensures
            k@ == self.key_view(),
    {
        self.0
    }
}

/// An upload policy read from a token.
#[derive(Debug)]
pub struct GotUploadPolicy(UploadPolicy);

impl GotUploadPolicy {
    /// The policy's JSON text.
    pub closed spec fn policy_view(&self) -> Seq<char> {
        self.0@
    }

    /// Wraps a policy.
    pub fn new(policy: UploadPolicy) -> (g: Self)
        ensures
            g.policy_view() == policy@,
    {
        GotUploadPolicy(policy)
    }

    /// The policy.
    pub fn upload_policy(&self) -> (p: &UploadPolicy)
        ensures
            p@ == self.policy_view(),
    {
        &self.0
    }

    /// The policy, to change.
    pub fn upload_policy_mut(&mut self) -> (p: &mut UploadPolicy)
        ensures
            p@ == old(self).policy_view(),
            final(self).policy_view() == final(p)@,
    {
        &mut self.0
    }

    /// The policy.
    pub fn into_upload_policy(self) -> (p: UploadPolicy)
        ensures
            p@ == self.policy_view(),
    {
        self.0
    }
}

/// A token written out.
#[derive(Debug, Clone)]
pub struct GotString(String);

impl GotString {
    /// The text.
    pub closed spec fn text(&self) -> Seq<char> {
        self.0@
    }

    /// Wraps a text.
    pub fn new(s: String) -> (g: Self)
        ensures
            g.text() == s@,
    {
        GotString(s)
    }

    /// The text.
    pub fn as_str(&self) -> (s: &str)
        ensures
            s@ == self.text(),
    {
        self.0.as_str()
    }

    /// The text.
    pub fn into_string(self) -> (s: String)
        ensures
            s@ == self.text(),
    {
        self.0
    }
}

/// Why a token could not be read.
#[derive(Debug, Clone, PartialEq, Eq)]
#[non_exhaustive]
pub enum ParseError {
    /// The token is not `AccessKey:signature:policy`.
    InvalidUploadTokenFormat,
    /// The policy is not URL-safe Base64.
    Base64DecodeError,
    /// The policy is not JSON; the parser's message.
    JsonDecodeError(String),
    /// No credential could be had; the provider's message.
    CredentialGetError(String),
}

/// The bytes after the first `:`, where there is one.
pub open spec fn after_first_colon(b: Seq<u8>) -> Option<Seq<u8>> {
    let i = index_of_byte(b, 58u8, 0);
    if i < b.len() {
        Some(b.skip(i + 1))
    } else {
        None
    }
}

/// The AccessKey of a token (its UTF-8 bytes): what comes before the first
/// `:`, where there is one.
pub open spec fn token_access_key(b: Seq<u8>) -> Option<Seq<u8>> {
    let i = index_of_byte(b, 58u8, 0);
    if i < b.len() {
        Some(b.take(i))
    } else {
        None
    }
}

/// The encoded policy of a token: the last of at most three parts split at
/// `:` (after the second `:`, else after the first, else all of it).
pub open spec fn token_encoded_policy(b: Seq<u8>) -> Seq<u8> {
    match after_first_colon(b) {
        None => b,
        Some(rest) => match after_first_colon(rest) {
            None => rest,
            Some(last) => last,
        },
    }
}

/// Reads and writes upload tokens.
pub trait UploadTokenProvider {
    /// Asking for the AccessKey with `opts` may give `r`. Unless a
    /// provider says more, it may give anything.
    open spec fn access_key_gives(&self, opts: GetAccessKeyOptions, r: Result<GotAccessKey, ParseError>) -> bool {
        true
    }

    /// Asking for the policy with `opts` may give `r`. Unless a
    /// provider says more, it may give anything.
    open spec fn policy_gives(&self, opts: GetPolicyOptions, r: Result<GotUploadPolicy, ParseError>) -> bool {
        true
    }

    /// Asking for the token with `opts` may give `r`. Unless a
    /// provider says more, it may give anything.
    open spec fn token_gives(&self, opts: ToStringOptions, r: Result<GotString, CredentialGetError>) -> bool {
        true
    }

    /// The AccessKey of the token.
    fn access_key(&self, opts: &GetAccessKeyOptions) -> (r: Result<GotAccessKey, ParseError>)
        ensures
            self.access_key_gives(*opts, r),
    ;

    /// The upload policy of the token.
    fn policy(&self, opts: &GetPolicyOptions) -> (r: Result<GotUploadPolicy, ParseError>)
        ensures
            self.policy_gives(*opts, r),
    ;

    /// The token.
    fn to_token_string(&self, opts: &ToStringOptions) -> (r: Result<GotString, CredentialGetError>)
        ensures
            self.token_gives(*opts, r),
    ;
}

/// What the AccessKey of a token is, given what a credential provider gave:
/// the credential's AccessKey, or the provider's error message.
pub open spec fn access_key_outcome(
    got: Result<GotCredential, CredentialGetError>,
    r: Result<GotAccessKey, ParseError>,
) -> bool {
    match got {
        Ok(g) => r matches Ok(k) && k.key_view() == g.credential_view().0,
        Err(e) => r == Err::<GotAccessKey, ParseError>(ParseError::CredentialGetError(e.message)),
    }
}

/// What the token of the policy text `policy` is, given what a credential
/// provider gave: the policy signed with data by the credential, or the
/// provider's error.
pub open spec fn token_outcome(
    got: Result<GotCredential, CredentialGetError>,
    policy: Seq<char>,
    r: Result<GotString, CredentialGetError>,
) -> bool {
    match got {
        Ok(g) => r matches Ok(s) && s.text() == signature_with_data(
            g.credential_view().0,
            g.credential_view().1,
            encode_utf8(policy),
        ),
        Err(e) => r == Err::<GotString, CredentialGetError>(e),
    }
}

/// The AccessKey of a token given what a credential provider gave: the
/// credential's AccessKey, or the provider's error message.
pub fn access_key_from(got: Result<GotCredential, CredentialGetError>) -> (r: Result<GotAccessKey, ParseError>)
    ensures
        access_key_outcome(got, r),
{
    match got {
        Ok(g) => Ok(GotAccessKey::new(g.into_credential().into_pair().0)),
        Err(e) => Err(ParseError::CredentialGetError(e.message)),
    }
}

/// A token given as text, read on demand.
#[derive(Debug, Clone)]
pub struct StaticUploadTokenProvider {
    upload_token: String,
}

impl StaticUploadTokenProvider {
    /// The token text.
    pub closed spec fn token(&self) -> Seq<char> {
        self.upload_token@
    }

    /// A provider of the token `upload_token`.
    pub fn new(upload_token: String) -> (p: Self)
        ensures
            p.token() == upload_token@,
    {
        StaticUploadTokenProvider { upload_token }
    }
}

impl UploadTokenProvider for StaticUploadTokenProvider {
    /// The text before the first `:`, where there is one.
    open spec fn access_key_gives(&self, opts: GetAccessKeyOptions, r: Result<GotAccessKey, ParseError>) -> bool {
        match token_access_key(encode_utf8(self.token())) {
            Some(k) => r matches Ok(g) && encode_utf8(g.key_view()) == k,
            None => r == Err::<GotAccessKey, ParseError>(ParseError::InvalidUploadTokenFormat),
        }
    }

    /// The policy decoded from the token's last part and read as JSON.
    open spec fn policy_gives(&self, opts: GetPolicyOptions, r: Result<GotUploadPolicy, ParseError>) -> bool {
        match urlsafe_decoding(token_encoded_policy(encode_utf8(self.token()))) {
            None => r == Err::<GotUploadPolicy, ParseError>(ParseError::Base64DecodeError),
            Some(json) => match json_normal_form(json) {
                Some(p) => r matches Ok(g) && g.policy_view() == p,
                None => r matches Err(ParseError::JsonDecodeError(_)),
            },
        }
    }

    /// The token itself.
    open spec fn token_gives(&self, opts: ToStringOptions, r: Result<GotString, CredentialGetError>) -> bool {
        r matches Ok(s) && s.text() == self.token()
    }

    fn access_key(&self, _opts: &GetAccessKeyOptions) -> (r: Result<GotAccessKey, ParseError>) {
        let (head, rest) = split_at_first_colon(self.upload_token.as_str());
        match rest {
            Some(_) => Ok(GotAccessKey::new(AccessKey::new(head.to_owned()))),
            None => Err(ParseError::InvalidUploadTokenFormat),
        }
    }

    fn policy(&self, _opts: &GetPolicyOptions) -> (r: Result<GotUploadPolicy, ParseError>) {
        let token = self.upload_token.as_str();
        let (_, rest) = split_at_first_colon(token);
        let encoded = match rest {
            None => token,
            Some(r) => {
                let (_, last) = split_at_first_colon(r);
                match last {
                    None => r,
                    Some(l) => l,
                }
            },
        };
        match urlsafe_decode(encoded.as_bytes()) {
            None => Err(ParseError::Base64DecodeError),
            Some(json) => match UploadPolicy::from_json(json.as_slice()) {
                Ok(policy) => Ok(GotUploadPolicy::new(policy)),
                Err(message) => Err(ParseError::JsonDecodeError(message)),
            },
        }
    }

    fn to_token_string(&self, _opts: &ToStringOptions) -> (r: Result<GotString, CredentialGetError>) {
        Ok(GotString::new(self.upload_token.clone()))
    }
}

/// The token of `policy` given what a credential provider gave: the policy
/// signed with data by the credential, or the provider's error as it is.
pub fn token_from_credential(
    got: Result<GotCredential, CredentialGetError>,
    policy: &UploadPolicy,
) -> (r: Result<GotString, CredentialGetError>)
    ensures
        token_outcome(got, policy@, r),
{
    match got {
        Ok(g) => {
            let token = g.credential().sign_with_data(policy.as_json().as_bytes());
            Ok(GotString::new(token))
        },
        Err(e) => Err(e),
    }
}

/// A token made from an upload policy and a credential.
#[derive(Debug)]
pub struct FromUploadPolicy<C> {
    upload_policy: UploadPolicy,
    credential: C,
}

impl<C> FromUploadPolicy<C> {
    /// The policy's JSON text.
    pub closed spec fn policy_view(&self) -> Seq<char> {
        self.upload_policy@
    }

    /// The credential provider.
    pub closed spec fn provider(&self) -> C {
        self.credential
    }

    /// Tokens of `upload_policy` signed with the credential of `credential`.
    pub fn new(upload_policy: UploadPolicy, credential: C) -> (p: Self)
        ensures
            p.policy_view() == upload_policy@,
            p.provider() == credential,
    {
        FromUploadPolicy { upload_policy, credential }
    }
}

impl<C: CredentialProvider> UploadTokenProvider for FromUploadPolicy<C> {
    /// The AccessKey of a credential that the provider gives (asked with
    /// default options), or its error message.
    open spec fn access_key_gives(&self, opts: GetAccessKeyOptions, r: Result<GotAccessKey, ParseError>) -> bool {
        exists|got: Result<GotCredential, CredentialGetError>|
            #[trigger] self.provider().gives(GetOptions {}, got) && access_key_outcome(got, r)
    }

    /// The policy.
    open spec fn policy_gives(&self, opts: GetPolicyOptions, r: Result<GotUploadPolicy, ParseError>) -> bool {
        r matches Ok(g) && g.policy_view() == self.policy_view()
    }

    /// The policy signed with data by a credential that the provider gives
    /// (asked with default options), or its error.
    open spec fn token_gives(&self, opts: ToStringOptions, r: Result<GotString, CredentialGetError>) -> bool {
        exists|got: Result<GotCredential, CredentialGetError>|
            #[trigger] self.provider().gives(GetOptions {}, got) && token_outcome(got, self.policy_view(), r)
    }

    fn access_key(&self, _opts: &GetAccessKeyOptions) -> (r: Result<GotAccessKey, ParseError>) {
        let got = self.credential.get(&GetOptions {});
        let ghost given = got;
        let r = access_key_from(got);
        proof {
            assert(self.provider().gives(GetOptions {}, given));
        }
        r
    }

    fn policy(&self, _opts: &GetPolicyOptions) -> (r: Result<GotUploadPolicy, ParseError>) {
        Ok(GotUploadPolicy::new(self.upload_policy.duplicate()))
    }

    fn to_token_string(&self, _opts: &ToStringOptions) -> (r: Result<GotString, CredentialGetError>) {
        let got = self.credential.get(&GetOptions {});
        let ghost given = got;
        let r = token_from_credential(got, &self.upload_policy);
        proof {
            assert(self.provider().gives(GetOptions {}, given));
        }
        r
    }
}

/// A token made by signing a policy is read back into the AccessKey that
/// signed it and the policy's JSON, where the AccessKey holds no `:`.
pub proof fn token_reads_back_what_signed_it(access_key: Seq<char>, secret_key: Seq<char>, json: Seq<u8>)
    requires
        forall|i: int| 0 <= i < encode_utf8(access_key).len() ==> #[trigger] encode_utf8(access_key)[i] != 58u8,
    ensures
        token_access_key(encode_utf8(signature_with_data(access_key, secret_key, json))) == Some(
            encode_utf8(access_key),
        ),
        token_encoded_policy(encode_utf8(signature_with_data(access_key, secret_key, json)))
            == urlsafe_encoding(json),
        urlsafe_decoding(token_encoded_policy(encode_utf8(signature_with_data(access_key, secret_key, json))))
            == Some(json),
{
    let enc = urlsafe_encoding(json);
    let mac = urlsafe_encoding(hmac_sha1(encode_utf8(secret_key), enc));
    lemma_encoding_shape(json);
    lemma_encoding_shape(hmac_sha1(encode_utf8(secret_key), enc));
    lemma_encoding_has_no_colon(json);
    lemma_encoding_has_no_colon(hmac_sha1(encode_utf8(secret_key), enc));
    lemma_ascii_roundtrip(enc);
    lemma_ascii_roundtrip(mac);
    let ak = encode_utf8(access_key);
    let colon = seq![':'];
    assert(is_ascii_chars(colon));
    crate::text::lemma_ascii_utf8(colon);
    assert(encode_utf8(colon) =~= seq![58u8]);
    lemma_encode_utf8_concat(access_key, colon);
    lemma_encode_utf8_concat(access_key + colon, ascii_chars(mac));
    lemma_encode_utf8_concat(access_key + colon + ascii_chars(mac), colon);
    lemma_encode_utf8_concat(access_key + colon + ascii_chars(mac) + colon, ascii_chars(enc));
    let t = encode_utf8(signature_with_data(access_key, secret_key, json));
    assert(signature_with_data(access_key, secret_key, json) == access_key + colon + ascii_chars(
        mac,
    ) + colon + ascii_chars(enc));
    assert(t =~= ak + seq![58u8] + mac + seq![58u8] + enc);
    lemma_index_of_byte_is(t, 58u8, 0, ak.len() as int);
    assert(t.take(ak.len() as int) =~= ak);
    let rest = t.skip(ak.len() as int + 1);
    assert(rest =~= mac + seq![58u8] + enc);
    lemma_index_of_byte_is(rest, 58u8, 0, mac.len() as int);
    assert(rest.skip(mac.len() as int + 1) =~= enc);
    lemma_decoding_inverts_encoding(json, enc);
}

} // verus!
