//! Qiniu credentials (AccessKey and SecretKey) and the signatures they make:
//! data signatures, upload-token style signatures, and the V1 (`QBox`) and
//! V2 (`Qiniu`) authorization of HTTP requests.

use crate::base64::{urlsafe, urlsafe_encoding};
use crate::digest::{hmac_sha1, hmac_sha1_digest};
use crate::headers::{lookup, HeaderMap};
use crate::query::{append_query_pair, with_pair};
use crate::signing::{
    build_v1_data, build_v2_data, form_mime, octet_stream_mime, opt_bytes, uri_text_bytes,
    url_text, v1_data, v2_data, Method, RequestUri,
};
use crate::text::{
    ascii_chars, bytes_eq, decimal, decimal_string, lemma_ascii_roundtrip, lemma_decimal_ascii,
};
use std::collections::VecDeque;
use vstd::prelude::*;
use vstd::string::*;
use vstd::utf8::*;

verus! {

/// An AccessKey.
#[derive(Clone, Debug, PartialEq, Eq)]
pub struct AccessKey(String);

/// A SecretKey.
#[derive(Clone, Debug, PartialEq, Eq)]
pub struct SecretKey(String);

impl View for AccessKey {
    type V = Seq<char>;

    closed spec fn view(&self) -> Seq<char> {
        self.0@
    }
}

impl View for SecretKey {
    type V = Seq<char>;

    closed spec fn view(&self) -> Seq<char> {
        self.0@
    }
}

impl AccessKey {
    pub fn new(key: String) -> (k: Self)
        ensures
            k@ == key@,
    {
        AccessKey(key)
    }

    pub fn as_str(&self) -> (s: &str)
        ensures
            s@ == self@,
    {
        self.0.as_str()
    }

    pub fn into_string(self) -> (s: String)
        ensures
            s@ == self@,
    {
        self.0
    }
}

impl SecretKey {
    pub fn new(key: String) -> (k: Self)
        ensures
            k@ == key@,
    {
        SecretKey(key)
    }

    pub fn as_str(&self) -> (s: &str)
        ensures
            s@ == self@,
    {
        self.0.as_str()
    }

    pub fn into_string(self) -> (s: String)
        ensures
            s@ == self@,
    {
        self.0
    }
}

/// The Qiniu signature of `data`: the AccessKey, `:`, and the URL-safe Base64
/// of the HMAC-SHA1 of the data under the SecretKey.
pub open spec fn signature(access_key: Seq<char>, secret_key: Seq<char>, data: Seq<u8>) -> Seq<
    char,
> {
    access_key + seq![':'] + ascii_chars(urlsafe_encoding(hmac_sha1(encode_utf8(secret_key), data)))
}

/// The signature of the URL-safe Base64 of `data`, then `:` and that Base64.
pub open spec fn signature_with_data(
    access_key: Seq<char>,
    secret_key: Seq<char>,
    data: Seq<u8>,
) -> Seq<char> {
    signature(access_key, secret_key, urlsafe_encoding(data)) + seq![':'] + ascii_chars(
        urlsafe_encoding(data),
    )
}

/// V1 signs the body only where the content type is the form type and the
/// body is not empty.
pub open spec fn v1_signs_body(content_type: Option<Seq<u8>>, body: Seq<u8>) -> bool {
    content_type == Some(form_mime()) && body.len() > 0
}

/// V2 signs the body where there is a content type and it is not the binary
/// type.
pub open spec fn v2_signs_body(content_type: Option<Seq<u8>>) -> bool {
    content_type is Some && content_type != Some(octet_stream_mime())
}

/// The content type of a header map.
pub open spec fn content_type_of(headers: Seq<(Seq<u8>, Seq<u8>)>) -> Option<Seq<u8>> {
    lookup(headers, encode_utf8("content-type"@))
}

/// Optional string as UTF-8 bytes.
pub open spec fn opt_str_bytes(s: Option<&str>) -> Option<Seq<u8>> {
    match s {
        Some(c) => Some(encode_utf8(c@)),
        None => None,
    }
}

/// An authentication credential: an AccessKey and a SecretKey.
#[derive(Clone, Debug, PartialEq, Eq)]
pub struct Credential {
    access_key: AccessKey,
    secret_key: SecretKey,
}

impl View for Credential {
    type V = (Seq<char>, Seq<char>);

    closed spec fn view(&self) -> (Seq<char>, Seq<char>) {
        (self.access_key@, self.secret_key@)
    }
}

impl Credential {
    /// Creates a credential.
    pub fn new(access_key: AccessKey, secret_key: SecretKey) -> (c: Self)
        ensures
            c@ == (access_key@, secret_key@),
    {
        Credential { access_key, secret_key }
    }

    /// The AccessKey.
    pub fn access_key(&self) -> (k: &AccessKey)
        ensures
            k@ == self@.0,
    {
        &self.access_key
    }

    /// The SecretKey.
    pub fn secret_key(&self) -> (k: &SecretKey)
        ensures
            k@ == self@.1,
    {
        &self.secret_key
    }

    /// Both keys.
    pub fn into_pair(self) -> (p: (AccessKey, SecretKey))
        ensures
            p.0@ == self@.0,
            p.1@ == self@.1,
    {
        (self.access_key, self.secret_key)
    }

    /// A copy of the credential.
    pub fn duplicate(&self) -> (c: Self)
        ensures
            c@ == self@,
    {
        Credential {
            access_key: AccessKey(self.access_key.0.clone()),
            secret_key: SecretKey(self.secret_key.0.clone()),
        }
    }

    /// Signs `data` with the Qiniu signing algorithm.
    pub fn sign(&self, data: &[u8]) -> (s: String)
        ensures
            s@ == signature(self@.0, self@.1, data@),
            s@.len() == self@.0.len() + 29,
    {
        let tag = hmac_sha1_digest(self.secret_key.as_str().as_bytes(), data);
        proof {
            crate::base64::lemma_encoding_shape(tag@);
        }
        let encoded = urlsafe(tag.as_slice());
        let mut s = self.access_key.0.clone();
        proof {
            reveal_strlit(":");
        }
        s.append(":");
        s.append(encoded.as_str());
        s
    }

    /// Signs the URL-safe Base64 of `data`, and gives the signature and that
    /// Base64 together.
    pub fn sign_with_data(&self, data: &[u8]) -> (s: String)
        ensures
            s@ == signature_with_data(self@.0, self@.1, data@),
    {
        let encoded = urlsafe(data);
        proof {
            crate::base64::lemma_encoding_shape(data@);
            lemma_ascii_roundtrip(urlsafe_encoding(data@));
        }
        let mut s = self.sign(encoded.as_str().as_bytes());
        proof {
            reveal_strlit(":");
        }
        s.append(":");
        s.append(encoded.as_str());
        s
    }

    /// The `Authorization` value of a request by signing algorithm V1.
    pub fn authorization_v1_for_request(
        &self,
        url: &RequestUri,
        content_type: Option<&str>,
        body: &[u8],
    ) -> (s: String)
        ensures
            s@ == "QBox "@ + signature(
                self@.0,
                self@.1,
                v1_data(*url, v1_signs_body(opt_str_bytes(content_type), body@), body@),
            ),
    {
        let push_body = match content_type {
            Some(ct) => bytes_eq(ct.as_bytes(), "application/x-www-form-urlencoded".as_bytes())
                && !body.is_empty(),
            None => false,
        };
        let data = build_v1_data(url, push_body, body);
        let token = self.sign(data.as_slice());
        let mut s = "QBox ".to_owned();
        s.append(token.as_str());
        s
    }

    /// The `Authorization` value of a request by signing algorithm V2.
    pub fn authorization_v2_for_request(
        &self,
        method: &Method,
        url: &RequestUri,
        headers: &HeaderMap,
        body: &[u8],
    ) -> (s: String)
        ensures
            s@ == "Qiniu "@ + signature(
                self@.0,
                self@.1,
                v2_data(
                    *method,
                    *url,
                    content_type_of(headers@),
                    headers@,
                    v2_signs_body(content_type_of(headers@)),
                    body@,
                ),
            ),
    {
        let content_type = headers.get("content-type");
        let push_body = match content_type {
            Some(ct) => !bytes_eq(ct.as_bytes(), "application/octet-stream".as_bytes()),
            None => false,
        };
        let data = build_v2_data(*method, url, content_type, headers, push_body, body);
        let token = self.sign(data.as_slice());
        let mut s = "Qiniu ".to_owned();
        s.append(token.as_str());
        s
    }
}

/// Whether V1 signs the body of a request of this content type (where the
/// body is not empty): only a form body is signed.
pub fn v1_reads_body(content_type: Option<&str>) -> (b: bool)
    ensures
        b == (opt_str_bytes(content_type) == Some(form_mime())),
{
    match content_type {
        Some(ct) => bytes_eq(ct.as_bytes(), "application/x-www-form-urlencoded".as_bytes()),
        None => false,
    }
}

/// Whether V2 signs the body of a request of these headers: where there is
/// a content type and it is not the binary type.
pub fn v2_reads_body(headers: &HeaderMap) -> (b: bool)
    ensures
        b == v2_signs_body(content_type_of(headers@)),
{
    let content_type = headers.get("content-type");
    proof {
        reveal_strlit("content-type");
    }
    match content_type {
        Some(ct) => !bytes_eq(ct.as_bytes(), "application/octet-stream".as_bytes()),
        None => false,
    }
}

/// The query bytes of a URL, empty where it has none.
pub open spec fn query_or_empty(query: Option<String>) -> Seq<u8> {
    match query {
        Some(q) => encode_utf8(q@),
        None => seq![],
    }
}

/// The query of a download URL signed until `deadline` (seconds since the
/// Unix epoch): `e=deadline` is appended, the URL with it is signed, and
/// `token=signature` is appended.
pub open spec fn signed_download_query(
    access_key: Seq<char>,
    secret_key: Seq<char>,
    url: RequestUri,
    deadline: nat,
) -> Seq<u8> {
    let with_deadline = with_pair(query_or_empty(url.query), encode_utf8("e"@), decimal(deadline));
    let signed = url_text(
        opt_bytes(url.scheme),
        opt_bytes(url.host),
        url.port,
        encode_utf8(url.path@),
        Some(with_deadline),
    );
    with_pair(
        with_deadline,
        encode_utf8("token"@),
        encode_utf8(signature(access_key, secret_key, signed)),
    )
}

impl Credential {
    /// Signs the download URL of an object, so that a private bucket serves
    /// it until `deadline` (seconds since the Unix epoch).
    pub fn sign_download_url(&self, url: RequestUri, deadline: u64) -> (r: RequestUri)
        ensures
            r.scheme == url.scheme,
            r.host == url.host,
            r.port == url.port,
            r.path == url.path,
            r.query matches Some(q) && encode_utf8(q@) == signed_download_query(
                self@.0,
                self@.1,
                url,
                deadline as nat,
            ),
    {
        let RequestUri { scheme, path, query, host, port } = url;
        let start = match query {
            Some(q) => q,
            None => {
                let e = String::new();
                assert(encode_utf8(e@) =~= Seq::<u8>::empty());
                e
            },
        };
        let deadline_text = decimal_string(deadline);
        proof {
            reveal_strlit("e");
            reveal_strlit("token");
            lemma_decimal_ascii(deadline as nat);
            lemma_ascii_roundtrip(decimal(deadline as nat));
        }
        let with_deadline = append_query_pair(start, "e", deadline_text.as_str());
        let ghost q1 = with_deadline@;
        let to_sign = RequestUri { scheme, path, query: Some(with_deadline), host, port };
        let text = uri_text_bytes(&to_sign);
        let token = self.sign(text.as_slice());
        let RequestUri { scheme, path, query, host, port } = to_sign;
        let with_deadline = match query {
            Some(q) => q,
            None => String::new(),
        };
        let signed = append_query_pair(with_deadline, "token", token.as_str());
        RequestUri { scheme, path, query: Some(signed), host, port }
    }
}

/// Every `Authorization` value of a credential starts with its scheme, the
/// AccessKey and a `:`: `Qiniu <AccessKey>:` by V2, `QBox <AccessKey>:` by
/// V1, whatever is signed.
pub proof fn authorization_starts_with_access_key(access_key: Seq<char>, secret_key: Seq<char>, data: Seq<u8>)
    ensures
        ("Qiniu "@ + signature(access_key, secret_key, data)).take(access_key.len() + 7int) == "Qiniu "@
            + access_key + seq![':'],
        ("QBox "@ + signature(access_key, secret_key, data)).take(access_key.len() + 6int) == "QBox "@
            + access_key + seq![':'],
{
    reveal_strlit("Qiniu ");
    reveal_strlit("QBox ");
    let rest = ascii_chars(urlsafe_encoding(hmac_sha1(encode_utf8(secret_key), data)));
    assert(signature(access_key, secret_key, data) == access_key + seq![':'] + rest);
    assert(("Qiniu "@ + signature(access_key, secret_key, data)).take(access_key.len() + 7int) =~= "Qiniu "@
        + access_key + seq![':']);
    assert(("QBox "@ + signature(access_key, secret_key, data)).take(access_key.len() + 6int) =~= "QBox "@
        + access_key + seq![':']);
}

/// Options for getting a credential.
#[derive(Clone, Debug, Default)]
pub struct GetOptions {}

/// A credential that a provider gave.
#[derive(Debug)]
pub struct GotCredential(Credential);

impl GotCredential {
    pub fn new(credential: Credential) -> (g: Self)
        ensures
            g.credential_view() == credential@,
    {
        GotCredential(credential)
    }

    pub closed spec fn credential_view(&self) -> (Seq<char>, Seq<char>) {
        self.0@
    }

    pub fn credential(&self) -> (c: &Credential)
        ensures
            c@ == self.credential_view(),
    {
        &self.0
    }

    pub fn credential_mut(&mut self) -> (c: &mut Credential)
        ensures
            c@ == old(self).credential_view(),
            final(self).credential_view() == final(c)@,
    {
        &mut self.0
    }

    pub fn into_credential(self) -> (c: Credential)
        ensures
            c@ == self.credential_view(),
    {
        self.0
    }
}

/// A provider of credentials.
pub trait CredentialProvider {
    /// Getting a credential with `opts` may give `r`. Unless a
    /// provider says more, it may give anything.
    open spec fn gives(&self, opts: GetOptions, r: Result<GotCredential, CredentialGetError>) -> bool {
        true
    }

    /// Gets a credential.
    fn get(&self, opts: &GetOptions) -> (r: Result<GotCredential, CredentialGetError>)
        ensures
            self.gives(*opts, r),
    ;
}

/// Why a provider gave no credential.
#[derive(Clone, Debug, PartialEq, Eq)]
pub struct CredentialGetError {
    pub message: String,
}

impl CredentialProvider for Credential {
    /// A credential gives itself, whatever the options.
    open spec fn gives(&self, opts: GetOptions, r: Result<GotCredential, CredentialGetError>) -> bool {
        r matches Ok(g) && g.credential_view() == self@
    }

    fn get(&self, _opts: &GetOptions) -> (r: Result<GotCredential, CredentialGetError>) {
        Ok(GotCredential::new(self.duplicate()))
    }
}

/// The environment variable of the AccessKey.
pub const QINIU_ACCESS_KEY_ENV_KEY: &'static str = "QINIU_ACCESS_KEY";

/// The environment variable of the SecretKey.
pub const QINIU_SECRET_KEY_ENV_KEY: &'static str = "QINIU_SECRET_KEY";

/// A provider of the credential set in a global place; the caller keeps
/// that place and hands over what it holds.
#[derive(Copy, Clone, Debug, PartialEq, Eq)]
pub struct GlobalCredentialProvider;

impl GlobalCredentialProvider {
    /// The credential set globally, or the error that none is set.
    pub fn get_from(&self, stored: Option<&Credential>) -> (r: Result<GotCredential, CredentialGetError>)
        ensures
            match stored {
                Some(c) => r matches Ok(g) && g.credential_view() == c@,
                None => r matches Err(e) && e.message@
                    == "GlobalCredentialProvider is not setuped, please call GlobalCredentialProvider::setup() to do it"@,
            },
    {
        match stored {
            Some(c) => Ok(GotCredential::new(c.duplicate())),
            None => Err(
                CredentialGetError {
                    message: "GlobalCredentialProvider is not setuped, please call GlobalCredentialProvider::setup() to do it".to_owned(),
                },
            ),
        }
    }
}

/// A provider of the credential in the environment variables
/// `QINIU_ACCESS_KEY` and `QINIU_SECRET_KEY`; the caller reads them and hands
/// over their values.
#[derive(Copy, Clone, Debug, PartialEq, Eq)]
pub struct EnvCredentialProvider;

impl EnvCredentialProvider {
    /// The credential of the two variables where both are set and not
    /// empty, else the error that they are not.
    pub fn get_from(&self, access_key: Option<String>, secret_key: Option<String>) -> (r: Result<
        GotCredential,
        CredentialGetError,
    >)
        ensures
            match (access_key, secret_key) {
                (Some(ak), Some(sk)) => if ak@.len() > 0 && sk@.len() > 0 {
                    r matches Ok(g) && g.credential_view() == (ak@, sk@)
                } else {
                    r is Err
                },
                _ => r is Err,
            },
    {
        match (access_key, secret_key) {
            (Some(ak), Some(sk)) => {
                if !ak.as_str().is_empty() && !sk.as_str().is_empty() {
                    return Ok(GotCredential::new(Credential::new(AccessKey::new(ak), SecretKey::new(sk))));
                }
            },
            _ => {},
        }
        Err(
            CredentialGetError {
                message: "EnvCredentialProvider is not setuped, please call EnvCredentialProvider::setup() to do it, or set environment variable `QINIU_ACCESS_KEY` and `QINIU_SECRET_KEY`".to_owned(),
            },
        )
    }
}

/// `provider` may fail with `opts`.
pub open spec fn may_fail<P: CredentialProvider>(provider: P, opts: GetOptions) -> bool {
    exists|e: CredentialGetError| #[trigger] provider.gives(opts, Err(e))
}

/// Every provider of `providers` may fail with `opts`.
pub open spec fn all_fail<P: CredentialProvider>(providers: Seq<P>, opts: GetOptions) -> bool {
    forall|j: int| 0 <= j < providers.len() ==> #[trigger] may_fail(providers[j], opts)
}

/// A failure of the next provider extends the failures of those before.
proof fn lemma_all_fail_one_more<P: CredentialProvider>(
    providers: Seq<P>,
    i: int,
    opts: GetOptions,
    e: CredentialGetError,
)
    requires
        0 <= i < providers.len(),
        all_fail(providers.take(i), opts),
        providers[i].gives(opts, Err(e)),
    ensures
        all_fail(providers.take(i + 1), opts),
{
    let next = providers.take(i + 1);
    assert forall|j: int| 0 <= j < next.len() implies #[trigger] may_fail(next[j], opts) by {
        if j < i {
            assert(next[j] == providers.take(i)[j]);
            assert(may_fail(providers.take(i)[j], opts));
        } else {
            assert(next[j] == providers[i]);
            assert(next[j].gives(opts, Err(e)));
        }
    }
}

/// Providers tried in turn; the first that gives a credential wins.
pub struct ChainCredentialsProvider<P> {
    credentials: Vec<P>,
}

impl<P: CredentialProvider> ChainCredentialsProvider<P> {
    pub fn builder(credential: P) -> (b: ChainCredentialsProviderBuilder<P>)
        ensures
            b.providers() == seq![credential],
    {
        let b = ChainCredentialsProviderBuilder::new(credential);
        assert(b.providers() =~= seq![credential]);
        b
    }

}

impl<P> ChainCredentialsProvider<P> {
    /// The providers, in the order they are tried.
    pub closed spec fn providers(&self) -> Seq<P> {
        self.credentials@
    }
}

impl<P: CredentialProvider> ChainCredentialsProvider<P> {
    /// Tries the providers in order, each with `opts`, and gives the
    /// credential of the first that gives one (the later ones are not
    /// asked); fails where all fail.
    pub fn get(&self, opts: &GetOptions) -> (r: Result<GotCredential, CredentialGetError>)
        ensures
            r matches Ok(g) ==> exists|i: int|
                0 <= i < self.providers().len() && #[trigger] self.providers()[i].gives(*opts, Ok(g))
                    && all_fail(self.providers().take(i), *opts),
            r is Err ==> all_fail(self.providers(), *opts),
            r matches Err(e) ==> e.message@ == "All credentials are failed to get"@,
    {
        let mut i: usize = 0;
        while i < self.credentials.len()
            invariant
                i <= self.credentials@.len(),
                all_fail(self.providers().take(i as int), *opts),
            decreases self.credentials@.len() - i,
        {
            match self.credentials[i].get(opts) {
                Ok(c) => {
                    proof {
                        assert(self.providers()[i as int].gives(*opts, Ok(c)));
                    }
                    return Ok(c);
                },
                Err(e) => {
                    proof {
                        lemma_all_fail_one_more(self.providers(), i as int, *opts, e);
                    }
                },
            }
            i = i + 1;
        }
        proof {
            assert(self.providers().take(i as int) =~= self.providers());
        }
        Err(CredentialGetError { message: "All credentials are failed to get".to_owned() })
    }
}

/// Builds a chain of providers.
pub struct ChainCredentialsProviderBuilder<P> {
    credentials: VecDeque<P>,
}

impl<P> ChainCredentialsProviderBuilder<P> {
    /// The providers so far, in order.
    pub closed spec fn providers(&self) -> Seq<P> {
        self.credentials@
    }

    /// A builder that holds one provider.
    pub fn new(credential: P) -> (b: Self)
        ensures
            b.providers() == seq![credential],
    {
        let mut credentials = VecDeque::new();
        credentials.push_back(credential);
        ChainCredentialsProviderBuilder { credentials }
    }

    /// Adds a provider at the end.
    pub fn append_credential(&mut self, credential: P) -> (r: &mut Self)
        ensures
            r.providers() == old(self).providers().push(credential),
            *final(self) == *final(r),
    {
        self.credentials.push_back(credential);
        self
    }

    /// Adds a provider at the front.
    pub fn prepend_credential(&mut self, credential: P) -> (r:
        &mut Self)
        ensures
            r.providers() == seq![credential] + old(self).providers(),
            *final(self) == *final(r),
    {
        let ghost before = self.credentials@;
        self.credentials.push_front(credential);
        assert(self.credentials@ =~= seq![credential] + before);
        self
    }

    /// The chain of the providers; the builder is left empty.
    pub fn build(&mut self) -> (c: ChainCredentialsProvider<P>)
        requires
            old(self).providers().len() > 0,
        ensures
            c.providers() == old(self).providers(),
            final(self).providers() == Seq::<P>::empty(),
    {
        let mut v: Vec<P> = Vec::new();
        while self.credentials.len() > 0
            invariant
                v@ + self.credentials@ == old(self).credentials@,
            decreases self.credentials@.len(),
        {
            let ghost before_v = v@;
            let ghost before_c = self.credentials@;
            let x = self.credentials.pop_front().unwrap();
            v.push(x);
            assert(v@ + self.credentials@ =~= before_v + before_c);
        }
        ChainCredentialsProvider { credentials: v }
    }
}

} // verus!
