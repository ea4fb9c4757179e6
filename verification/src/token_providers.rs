//! Upload tokens made on demand for a bucket or for one object: each call
//! makes a fresh policy valid for a lifetime from the current time, lets a
//! callback of the user adjust it, and signs it with the credential of a
//! provider. Also the bucket named by any token's policy.

use crate::credential::{CredentialGetError, CredentialProvider, GetOptions, GotCredential};
use crate::text::index_of_byte;
use crate::upload_policy::{
    deadline_after, json_string_field, policy_json, scope_of, UploadPolicy, UploadPolicyBuilder,
};
use crate::upload_token::{
    access_key_from, access_key_outcome, token_from_credential, token_outcome, GetAccessKeyOptions,
    GetPolicyOptions, GotAccessKey, GotString, GotUploadPolicy, ParseError, ToStringOptions,
    UploadTokenProvider,
};
use vstd::prelude::*;
use vstd::utf8::*;

verus! {

/// What a provider does to each policy it makes, before the policy is built.
pub trait OnPolicyGenerated {
    /// Adjusts `policy`.
    fn on_policy_generated(&self, policy: UploadPolicyBuilder) -> UploadPolicyBuilder;
}

/// Leaves the policy as it is.
#[derive(Debug, Clone, Copy, Default)]
pub struct NoCallback;

impl OnPolicyGenerated for NoCallback {
    fn on_policy_generated(&self, policy: UploadPolicyBuilder) -> (r: UploadPolicyBuilder)
        ensures
            r == policy,
    {
        policy
    }
}

/// Makes tokens for uploads to a bucket.
#[derive(Debug, Clone)]
pub struct BucketUploadTokenProvider<C, G> {
    bucket: String,
    upload_token_lifetime: u64,
    credential: C,
    on_policy_generated: Option<G>,
}

/// Builds a [`BucketUploadTokenProvider`].
#[derive(Debug, Clone)]
pub struct BucketUploadTokenProviderBuilder<C, G> {
    inner: BucketUploadTokenProvider<C, G>,
}

impl<C> BucketUploadTokenProvider<C, NoCallback> {
    /// Tokens for `bucket`, valid for `upload_token_lifetime` seconds from
    /// when each is made, signed with the credential of `credential`.
    pub fn new(bucket: String, upload_token_lifetime: u64, credential: C) -> (p: Self)
        ensures
            p.bucket_view() == bucket@,
            p.lifetime() == upload_token_lifetime,
            p.provider() == credential,
            p.callback() is None,
    {
        Self::builder(bucket, upload_token_lifetime, credential).build()
    }

    /// A builder of such a provider, with no callback yet.
    pub fn builder(bucket: String, upload_token_lifetime: u64, credential: C) -> (b:
        BucketUploadTokenProviderBuilder<C, NoCallback>)
        ensures
            b.pending().bucket_view() == bucket@,
            b.pending().lifetime() == upload_token_lifetime,
            b.pending().provider() == credential,
            b.pending().callback() is None,
    {
        BucketUploadTokenProviderBuilder {
            inner: BucketUploadTokenProvider { bucket, upload_token_lifetime, credential, on_policy_generated: None },
        }
    }
}

impl<C, G> BucketUploadTokenProviderBuilder<C, G> {
    /// The provider being built.
    pub closed spec fn pending(&self) -> BucketUploadTokenProvider<C, G> {
        self.inner
    }

    /// Adjusts each policy with `callback` before it is built.
    pub fn on_policy_generated<H>(self, callback: H) -> (b: BucketUploadTokenProviderBuilder<C, H>)
        ensures
            b.pending().bucket_view() == self.pending().bucket_view(),
            b.pending().lifetime() == self.pending().lifetime(),
            b.pending().provider() == self.pending().provider(),
            b.pending().callback() == Some(callback),
    {
        let BucketUploadTokenProvider { bucket, upload_token_lifetime, credential, on_policy_generated: _ } =
            self.inner;
        BucketUploadTokenProviderBuilder {
            inner: BucketUploadTokenProvider {
                bucket,
                upload_token_lifetime,
                credential,
                on_policy_generated: Some(callback),
            },
        }
    }

    /// The provider.
    pub fn build(self) -> (p: BucketUploadTokenProvider<C, G>)
        ensures
            p == self.pending(),
    {
        self.inner
    }
}

impl<C, G> BucketUploadTokenProvider<C, G> {
    /// The bucket.
    pub closed spec fn bucket_view(&self) -> Seq<char> {
        self.bucket@
    }

    /// How long each token is valid, in seconds.
    pub closed spec fn lifetime(&self) -> u64 {
        self.upload_token_lifetime
    }

    /// The credential provider.
    pub closed spec fn provider(&self) -> C {
        self.credential
    }

    /// The callback, where there is one.
    pub closed spec fn callback(&self) -> Option<G> {
        self.on_policy_generated
    }
}

impl<C, G> BucketUploadTokenProvider<C, G> {
    /// `text` is a policy that this provider may make: without a callback,
    /// the policy of its scope valid for its lifetime from some current
    /// time; with one, whatever the callback makes.
    pub open spec fn made_policy(&self, text: Seq<char>) -> bool {
        self.callback() is None ==> exists|now: u64|
            text == policy_json(scope_of(self.bucket_view(), None), deadline_after(now, self.lifetime()), None)
    }
}

impl<C, G: OnPolicyGenerated> BucketUploadTokenProvider<C, G> {
    /// A fresh policy: for the bucket, valid for the lifetime from the
    /// current time, adjusted by the callback where there is one.
    pub fn make_policy(&self) -> (p: UploadPolicy)
        ensures
            self.made_policy(p@),
    {
        let policy = UploadPolicyBuilder::new_policy_for_bucket(self.bucket.clone(), self.upload_token_lifetime);
        let ghost fresh = policy;
        let policy = match &self.on_policy_generated {
            Some(callback) => callback.on_policy_generated(policy),
            None => policy,
        };
        let p = policy.build();
        proof {
            if self.callback() is None {
                let now = choose|now: u64| fresh.deadline_view() == deadline_after(now, self.lifetime());
                assert(p@ == policy_json(scope_of(self.bucket_view(), None), deadline_after(now, self.lifetime()), None));
            }
        }
        p
    }
}

impl<C: CredentialProvider, G: OnPolicyGenerated> UploadTokenProvider for BucketUploadTokenProvider<C, G> {
    /// The AccessKey of a credential that the provider gives (asked with
    /// default options), or its error message.
    open spec fn access_key_gives(&self, opts: GetAccessKeyOptions, r: Result<GotAccessKey, ParseError>) -> bool {
        exists|got: Result<GotCredential, CredentialGetError>|
            #[trigger] self.provider().gives(GetOptions {}, got) && access_key_outcome(got, r)
    }

    /// A fresh policy.
    open spec fn policy_gives(&self, opts: GetPolicyOptions, r: Result<GotUploadPolicy, ParseError>) -> bool {
        r matches Ok(g) && self.made_policy(g.policy_view())
    }

    /// A fresh policy signed with data by a credential that the provider
    /// gives (asked with default options), or the provider's error.
    open spec fn token_gives(&self, opts: ToStringOptions, r: Result<GotString, CredentialGetError>) -> bool {
        exists|got: Result<GotCredential, CredentialGetError>, text: Seq<char>|
            #![trigger self.provider().gives(GetOptions {}, got), self.made_policy(text)]
            self.provider().gives(GetOptions {}, got) && self.made_policy(text) && token_outcome(got, text, r)
    }

    fn access_key(&self, _opts: &GetAccessKeyOptions) -> (r: Result<GotAccessKey, ParseError>) {
        let got = self.credential.get(&GetOptions {});
        let ghost given = got;
        let r = access_key_from(got);
        proof {
            assert(self.provider().gives(GetOptions {}, given));
        }
        r
    }

    fn policy(&self, _opts: &GetPolicyOptions) -> (r: Result<GotUploadPolicy, ParseError>) {
        Ok(GotUploadPolicy::new(self.make_policy()))
    }

    fn to_token_string(&self, _opts: &ToStringOptions) -> (r: Result<GotString, CredentialGetError>) {
        let got = self.credential.get(&GetOptions {});
        let ghost given = got;
        let policy = self.make_policy();
        let r = token_from_credential(got, &policy);
        proof {
            assert(self.provider().gives(GetOptions {}, given));
            assert(self.made_policy(policy@));
        }
        r
    }
}

/// Makes tokens for uploads of one object to a bucket.
#[derive(Debug, Clone)]
pub struct ObjectUploadTokenProvider<C, G> {
    bucket: String,
    object: String,
    upload_token_lifetime: u64,
    credential: C,
    on_policy_generated: Option<G>,
}

/// Builds an [`ObjectUploadTokenProvider`].
#[derive(Debug, Clone)]
pub struct ObjectUploadTokenProviderBuilder<C, G> {
    inner: ObjectUploadTokenProvider<C, G>,
}

impl<C> ObjectUploadTokenProvider<C, NoCallback> {
    /// Tokens for the object `object` of `bucket`, valid for
    /// `upload_token_lifetime` seconds from when each is made, signed with
    /// the credential of `credential`.
    pub fn new(bucket: String, object: String, upload_token_lifetime: u64, credential: C) -> (p: Self)
        ensures
            p.bucket_view() == bucket@,
            p.object_view() == object@,
            p.lifetime() == upload_token_lifetime,
            p.provider() == credential,
            p.callback() is None,
    {
        Self::builder(bucket, object, upload_token_lifetime, credential).build()
    }

    /// A builder of such a provider, with no callback yet.
    pub fn builder(bucket: String, object: String, upload_token_lifetime: u64, credential: C) -> (b:
        ObjectUploadTokenProviderBuilder<C, NoCallback>)
        ensures
            b.pending().bucket_view() == bucket@,
            b.pending().object_view() == object@,
            b.pending().lifetime() == upload_token_lifetime,
            b.pending().provider() == credential,
            b.pending().callback() is None,
    {
        ObjectUploadTokenProviderBuilder {
            inner: ObjectUploadTokenProvider {
                bucket,
                object,
                upload_token_lifetime,
                credential,
                on_policy_generated: None,
            },
        }
    }
}

impl<C, G> ObjectUploadTokenProviderBuilder<C, G> {
    /// The provider being built.
    pub closed spec fn pending(&self) -> ObjectUploadTokenProvider<C, G> {
        self.inner
    }

    /// Adjusts each policy with `callback` before it is built.
    pub fn on_policy_generated<H>(self, callback: H) -> (b: ObjectUploadTokenProviderBuilder<C, H>)
        ensures
            b.pending().bucket_view() == self.pending().bucket_view(),
            b.pending().object_view() == self.pending().object_view(),
            b.pending().lifetime() == self.pending().lifetime(),
            b.pending().provider() == self.pending().provider(),
            b.pending().callback() == Some(callback),
    {
        let ObjectUploadTokenProvider { bucket, object, upload_token_lifetime, credential, on_policy_generated: _ } =
            self.inner;
        ObjectUploadTokenProviderBuilder {
            inner: ObjectUploadTokenProvider {
                bucket,
                object,
                upload_token_lifetime,
                credential,
                on_policy_generated: Some(callback),
            },
        }
    }

    /// The provider.
    pub fn build(self) -> (p: ObjectUploadTokenProvider<C, G>)
        ensures
            p == self.pending(),
    {
        self.inner
    }
}

impl<C, G> ObjectUploadTokenProvider<C, G> {
    /// The bucket.
    pub closed spec fn bucket_view(&self) -> Seq<char> {
        self.bucket@
    }

    /// The object name.
    pub closed spec fn object_view(&self) -> Seq<char> {
        self.object@
    }

    /// How long each token is valid, in seconds.
    pub closed spec fn lifetime(&self) -> u64 {
        self.upload_token_lifetime
    }

    /// The credential provider.
    pub closed spec fn provider(&self) -> C {
        self.credential
    }

    /// The callback, where there is one.
    pub closed spec fn callback(&self) -> Option<G> {
        self.on_policy_generated
    }
}

impl<C, G> ObjectUploadTokenProvider<C, G> {
    /// `text` is a policy that this provider may make: without a callback,
    /// the policy of its scope valid for its lifetime from some current
    /// time; with one, whatever the callback makes.
    pub open spec fn made_policy(&self, text: Seq<char>) -> bool {
        self.callback() is None ==> exists|now: u64|
            text == policy_json(scope_of(self.bucket_view(), Some(self.object_view())), deadline_after(now, self.lifetime()), None)
    }
}

impl<C, G: OnPolicyGenerated> ObjectUploadTokenProvider<C, G> {
    /// A fresh policy: for the object, valid for the lifetime from the
    /// current time, adjusted by the callback where there is one.
    pub fn make_policy(&self) -> (p: UploadPolicy)
        ensures
            self.made_policy(p@),
    {
        let policy = UploadPolicyBuilder::new_policy_for_object(
            self.bucket.clone(),
            self.object.clone(),
            self.upload_token_lifetime,
        );
        let ghost fresh = policy;
        let policy = match &self.on_policy_generated {
            Some(callback) => callback.on_policy_generated(policy),
            None => policy,
        };
        let p = policy.build();
        proof {
            if self.callback() is None {
                let now = choose|now: u64| fresh.deadline_view() == deadline_after(now, self.lifetime());
                assert(p@ == policy_json(scope_of(self.bucket_view(), Some(self.object_view())), deadline_after(now, self.lifetime()), None));
            }
        }
        p
    }
}

impl<C: CredentialProvider, G: OnPolicyGenerated> UploadTokenProvider for ObjectUploadTokenProvider<C, G> {
    /// The AccessKey of a credential that the provider gives (asked with
    /// default options), or its error message.
    open spec fn access_key_gives(&self, opts: GetAccessKeyOptions, r: Result<GotAccessKey, ParseError>) -> bool {
        exists|got: Result<GotCredential, CredentialGetError>|
            #[trigger] self.provider().gives(GetOptions {}, got) && access_key_outcome(got, r)
    }

    /// A fresh policy.
    open spec fn policy_gives(&self, opts: GetPolicyOptions, r: Result<GotUploadPolicy, ParseError>) -> bool {
        r matches Ok(g) && self.made_policy(g.policy_view())
    }

    /// A fresh policy signed with data by a credential that the provider
    /// gives (asked with default options), or the provider's error.
    open spec fn token_gives(&self, opts: ToStringOptions, r: Result<GotString, CredentialGetError>) -> bool {
        exists|got: Result<GotCredential, CredentialGetError>, text: Seq<char>|
            #![trigger self.provider().gives(GetOptions {}, got), self.made_policy(text)]
            self.provider().gives(GetOptions {}, got) && self.made_policy(text) && token_outcome(got, text, r)
    }

    fn access_key(&self, _opts: &GetAccessKeyOptions) -> (r: Result<GotAccessKey, ParseError>) {
        let got = self.credential.get(&GetOptions {});
        let ghost given = got;
        let r = access_key_from(got);
        proof {
            assert(self.provider().gives(GetOptions {}, given));
        }
        r
    }

    fn policy(&self, _opts: &GetPolicyOptions) -> (r: Result<GotUploadPolicy, ParseError>) {
        Ok(GotUploadPolicy::new(self.make_policy()))
    }

    fn to_token_string(&self, _opts: &ToStringOptions) -> (r: Result<GotString, CredentialGetError>) {
        let got = self.credential.get(&GetOptions {});
        let ghost given = got;
        let policy = self.make_policy();
        let r = token_from_credential(got, &policy);
        proof {
            assert(self.provider().gives(GetOptions {}, given));
            assert(self.made_policy(policy@));
        }
        r
    }
}

/// How long from `since` to `now`; 0 where `now` comes first.
pub open spec fn elapsed_since(since: u64, now: u64) -> nat {
    if now >= since {
        (now - since) as nat
    } else {
        0
    }
}

/// A value kept with the time it was got, for a cache of a provider's
/// answers: it is handed out again while it is younger than the lifetime
/// of the cache.
#[derive(Debug)]
pub struct CachedValue<T> {
    entry: Option<(u64, T)>,
}

impl<T> CachedValue<T> {
    /// The value and when it was got, where there is one.
    pub closed spec fn entry_view(&self) -> Option<(u64, T)> {
        self.entry
    }

    /// Nothing cached yet.
    pub fn new() -> (c: Self)
        ensures
            c.entry_view() is None,
    {
        CachedValue { entry: None }
    }

    /// The cached value where it was got less than `lifetime` before
    /// `now`; else `None`, and the caller gets a new one.
    pub fn get_fresh(&self, now: u64, lifetime: u64) -> (r: Option<&T>)
        ensures
            match self.entry_view() {
                Some((at, v)) => if elapsed_since(at, now) < lifetime {
                    r == Some(&v)
                } else {
                    r is None
                },
                None => r is None,
            },
    {
        match &self.entry {
            Some((at, v)) => {
                let age = if now >= *at {
                    now - *at
                } else {
                    0
                };
                if age < lifetime {
                    Some(v)
                } else {
                    None
                }
            },
            None => None,
        }
    }

    /// Keeps `value`, got at `now`.
    pub fn store(&mut self, now: u64, value: T)
        ensures
            final(self).entry_view() == Some((now, value)),
    {
        self.entry = Some((now, value));
    }
}

/// The bucket named by a policy that a provider gave: the scope up to its
/// first `:`, where the policy has a scope; else an invalid token; a
/// provider's error as it is.
pub open spec fn bucket_outcome(policy: Result<GotUploadPolicy, ParseError>, r: Result<String, ParseError>) -> bool {
    match policy {
        Err(e) => r == Err::<String, ParseError>(e),
        Ok(p) => match json_string_field(p.policy_view(), "scope"@) {
            Some(scope) => r matches Ok(s) && encode_utf8(s@) == encode_utf8(scope).take(
                index_of_byte(encode_utf8(scope), 58u8, 0),
            ),
            None => r == Err::<String, ParseError>(ParseError::InvalidUploadTokenFormat),
        },
    }
}

/// The bucket of a policy that a provider gave: its bucket where it names
/// one, else an invalid token; a provider's error as it is.
pub fn bucket_name_of(policy: Result<GotUploadPolicy, ParseError>) -> (r: Result<String, ParseError>)
    ensures
        bucket_outcome(policy, r),
{
    match policy {
        Err(e) => Err(e),
        Ok(p) => match p.upload_policy().bucket() {
            Some(b) => Ok(b),
            None => Err(ParseError::InvalidUploadTokenFormat),
        },
    }
}

/// The bucket named by the policy that `provider` gives when asked with
/// `opts`.
pub fn bucket_name<P: UploadTokenProvider>(provider: &P, opts: &GetPolicyOptions) -> (r: Result<String, ParseError>)
    ensures
        exists|p: Result<GotUploadPolicy, ParseError>|
            #[trigger] provider.policy_gives(*opts, p) && bucket_outcome(p, r),
{
    let policy = provider.policy(opts);
    let ghost given = policy;
    let r = bucket_name_of(policy);
    proof {
        assert(provider.policy_gives(*opts, given));
    }
    r
}

} // verus!
