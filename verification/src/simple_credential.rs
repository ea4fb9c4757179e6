//! Credentials held as plain strings, with the signing algorithms of the
//! Qiniu storage SDK: data signatures and V1 / V2 request authorization,
//! where content types are compared ignoring ASCII case.

use crate::base64::{urlsafe, urlsafe_encoding};
use crate::credential::signature;
use crate::digest::hmac_sha1_digest;
use crate::headers::{lookup, HeaderMap};
use crate::credential::query_or_empty;
use crate::query::{append_query_pair, with_pair};
use crate::signing::{
    build_v1_data, build_v2_data, form_mime, octet_stream_mime, opt_bytes, uri_text,
    uri_text_bytes, url_text, v1_data, v2_data, Method, RequestUri,
};
use crate::text::{
    ascii_chars, bytes_eq_ignore_ascii_case, decimal, decimal_bytes, decimal_string,
    eq_ignore_ascii_case, lemma_ascii_roundtrip, lemma_decimal_ascii, push_str_bytes,
};
use std::collections::VecDeque;
use vstd::prelude::*;
use vstd::string::*;
use vstd::utf8::*;

verus! {

/// V1 signs the body where the content type is not empty and is the form
/// type ignoring case, and the body is not empty.
pub open spec fn v1_signs_body_ignoring_case(content_type: Seq<u8>, body: Seq<u8>) -> bool {
    content_type.len() > 0 && body.len() > 0 && eq_ignore_ascii_case(content_type, form_mime())
}

/// V2 signs the body where there is a content type that is not the binary
/// type ignoring case, and the body is not empty.
pub open spec fn v2_signs_body_ignoring_case(content_type: Option<Seq<u8>>, body: Seq<u8>) -> bool {
    content_type matches Some(c) && body.len() > 0 && !eq_ignore_ascii_case(c, octet_stream_mime())
}

/// The content type of a header map (`Content-Type`, any case).
pub open spec fn content_type_header(headers: Seq<(Seq<u8>, Seq<u8>)>) -> Option<Seq<u8>> {
    lookup(headers, encode_utf8("Content-Type"@))
}

/// An authentication credential: an AccessKey and a SecretKey.
#[derive(Clone, Debug)]
pub struct Credential {
    access_key: String,
    secret_key: String,
}

impl View for Credential {
    type V = (Seq<char>, Seq<char>);

    closed spec fn view(&self) -> (Seq<char>, Seq<char>) {
        (self.access_key@, self.secret_key@)
    }
}

impl Credential {
    /// Creates a credential.
    pub fn new(access_key: String, secret_key: String) -> (c: Self)
        ensures
            c@ == (access_key@, secret_key@),
    {
        Credential { access_key, secret_key }
    }

    /// The AccessKey.
    pub fn access_key(&self) -> (k: &str)
        ensures
            k@ == self@.0,
    {
        self.access_key.as_str()
    }

    /// The SecretKey.
    pub fn secret_key(&self) -> (k: &str)
        ensures
            k@ == self@.1,
    {
        self.secret_key.as_str()
    }

    /// Both keys.
    pub fn into_pair(self) -> (p: (String, String))
        ensures
            p.0@ == self@.0,
            p.1@ == self@.1,
    {
        (self.access_key, self.secret_key)
    }

    /// The AccessKey, to change.
    pub fn access_key_mut(&mut self) -> (k: &mut String)
        ensures
            k@ == old(self)@.0,
            final(self)@ == (final(k)@, old(self)@.1),
    {
        &mut self.access_key
    }

    /// The SecretKey, to change.
    pub fn secret_key_mut(&mut self) -> (k: &mut String)
        ensures
            k@ == old(self)@.1,
            final(self)@ == (old(self)@.0, final(k)@),
    {
        &mut self.secret_key
    }

    /// A copy of the credential.
    pub fn duplicate(&self) -> (c: Self)
        ensures
            c@ == self@,
    {
        Credential { access_key: self.access_key.clone(), secret_key: self.secret_key.clone() }
    }

    /// Signs `data` with the Qiniu signing algorithm.
    pub fn sign(&self, data: &[u8]) -> (s: String)
        ensures
            s@ == signature(self@.0, self@.1, data@),
            s@.len() == self@.0.len() + 29,
    {
        let tag = hmac_sha1_digest(self.secret_key.as_str().as_bytes(), data);
        proof {
            crate::base64::lemma_encoding_shape(tag@);
        }
        let encoded = urlsafe(tag.as_slice());
        let mut s = self.access_key.clone();
        proof {
            reveal_strlit(":");
        }
        s.append(":");
        s.append(encoded.as_str());
        s
    }

    /// Signs the URL-safe Base64 of `data`, and gives the signature and that
    /// Base64 together.
    pub fn sign_with_data(&self, data: &[u8]) -> (s: String)
        ensures
            s@ == signature(self@.0, self@.1, urlsafe_encoding(data@)) + seq![':'] + ascii_chars(
                urlsafe_encoding(data@),
            ),
    {
        let encoded = urlsafe(data);
        proof {
            crate::base64::lemma_encoding_shape(data@);
            lemma_ascii_roundtrip(urlsafe_encoding(data@));
        }
        let mut s = self.sign(encoded.as_str().as_bytes());
        proof {
            reveal_strlit(":");
        }
        s.append(":");
        s.append(encoded.as_str());
        s
    }

    /// The `Authorization` value of a request by signing algorithm V1.
    pub fn authorization_v1_for_request(
        &self,
        url: &RequestUri,
        content_type: &str,
        body: &[u8],
    ) -> (s: String)
        ensures
            s@ == "QBox "@ + signature(
                self@.0,
                self@.1,
                v1_data(
                    *url,
                    v1_signs_body_ignoring_case(encode_utf8(content_type@), body@),
                    body@,
                ),
            ),
    {
        let push_body = !content_type.is_empty() && !body.is_empty() && bytes_eq_ignore_ascii_case(
            content_type.as_bytes(),
            "application/x-www-form-urlencoded".as_bytes(),
        );
        proof {
            if content_type@.len() == 0 {
                assert(encode_utf8(content_type@) =~= Seq::<u8>::empty());
            } else {
                assert(encode_utf8(content_type@).len() > 0);
            }
        }
        let data = build_v1_data(url, push_body, body);
        let token = self.sign(data.as_slice());
        let mut s = "QBox ".to_owned();
        s.append(token.as_str());
        s
    }

    /// The `Authorization` value of a request by signing algorithm V2. The
    /// URL must have a host.
    pub fn authorization_v2_for_request(
        &self,
        method: Method,
        url: &RequestUri,
        headers: &HeaderMap,
        body: &[u8],
    ) -> (s: String)
        requires
            url.host is Some,
        ensures
            s@ == "Qiniu "@ + signature(
                self@.0,
                self@.1,
                v2_data(
                    method,
                    *url,
                    content_type_header(headers@),
                    headers@,
                    v2_signs_body_ignoring_case(content_type_header(headers@), body@),
                    body@,
                ),
            ),
    {
        let content_type = headers.get("Content-Type");
        let push_body = match content_type {
            Some(ct) => !body.is_empty() && !bytes_eq_ignore_ascii_case(
                ct.as_bytes(),
                "application/octet-stream".as_bytes(),
            ),
            None => false,
        };
        let data = build_v2_data(method, url, content_type, headers, push_body, body);
        let token = self.sign(data.as_slice());
        let mut s = "Qiniu ".to_owned();
        s.append(token.as_str());
        s
    }
}

/// `n`, or the greatest `u32` where `n` is greater.
pub open spec fn clamp_to_u32(n: nat) -> nat {
    if n > u32::MAX {
        u32::MAX as nat
    } else {
        n
    }
}

/// The text that signs a download URL until `deadline`: the URL (or only
/// its path and query), then `?e=` (or `&e=` where the text holds a `?`)
/// and the deadline in seconds, at most the greatest `u32`.
pub open spec fn download_text_to_sign(url: RequestUri, deadline: nat, only_path: bool) -> Seq<u8> {
    let base = if only_path {
        url_text(None, None, None, encode_utf8(url.path@), opt_bytes(url.query))
    } else {
        uri_text(url)
    };
    base + (if base.contains(63u8) {
        seq![38u8, 101u8, 61u8]
    } else {
        seq![63u8, 101u8, 61u8]
    }) + decimal(clamp_to_u32(deadline))
}

/// The query of a download URL signed until `deadline`: `e=deadline` and
/// `token=signature` are appended.
pub open spec fn signed_download_query(
    access_key: Seq<char>,
    secret_key: Seq<char>,
    url: RequestUri,
    deadline: nat,
    only_path: bool,
) -> Seq<u8> {
    with_pair(
        with_pair(query_or_empty(url.query), encode_utf8("e"@), decimal(clamp_to_u32(deadline))),
        encode_utf8("token"@),
        encode_utf8(signature(access_key, secret_key, download_text_to_sign(url, deadline, only_path))),
    )
}

/// Whether bytes hold a `?`.
fn holds_question_mark(b: &[u8]) -> (r: bool)
    ensures
        r == b@.contains(63u8),
{
    let mut i: usize = 0;
    while i < b.len()
        invariant
            i <= b.len(),
            forall|j: int| 0 <= j < i ==> b@[j] != 63u8,
        decreases b.len() - i,
    {
        if b[i] == 63u8 {
            assert(b@[i as int] == 63u8);
            return true;
        }
        i = i + 1;
    }
    false
}

impl Credential {
    /// Signs the download URL of an object in place, so that a private
    /// bucket serves it until `deadline` (seconds since the Unix epoch); with
    /// `only_path`, only the path and query of the URL are signed.
    pub fn sign_download_url(&self, url: &mut RequestUri, deadline: u64, only_path: bool)
        ensures
            final(url).scheme == old(url).scheme,
            final(url).host == old(url).host,
            final(url).port == old(url).port,
            final(url).path == old(url).path,
            final(url).query matches Some(q) && encode_utf8(q@) == signed_download_query(
                self@.0,
                self@.1,
                *old(url),
                deadline as nat,
                only_path,
            ),
    {
        let mut to_sign: Vec<u8> = if only_path {
            let query = match &url.query {
                Some(q) => Some(q.clone()),
                None => None,
            };
            let plain = RequestUri { scheme: None, path: url.path.clone(), query, host: None, port: None };
            uri_text_bytes(&plain)
        } else {
            uri_text_bytes(url)
        };
        let ghost base = to_sign@;
        assert(base == if only_path {
            url_text(None, None, None, encode_utf8(url.path@), opt_bytes(url.query))
        } else {
            uri_text(*url)
        });
        if holds_question_mark(to_sign.as_slice()) {
            to_sign.push(38u8);
        } else {
            to_sign.push(63u8);
        }
        to_sign.push(101u8);
        to_sign.push(61u8);
        let seconds: u64 = if deadline > 4294967295u64 {
            4294967295u64
        } else {
            deadline
        };
        let digits = decimal_bytes(seconds);
        let mut k: usize = 0;
        let ghost before = to_sign@;
        while k < digits.len()
            invariant
                k <= digits.len(),
                to_sign@ == before + digits@.take(k as int),
            decreases digits.len() - k,
        {
            to_sign.push(digits[k]);
            assert(digits@.take(k + 1) =~= digits@.take(k as int).push(digits@[k as int]));
            k = k + 1;
        }
        assert(digits@.take(digits.len() as int) =~= digits@);
        assert(to_sign@ == download_text_to_sign(*old(url), deadline as nat, only_path));
        let token = self.sign(to_sign.as_slice());
        let deadline_text = decimal_string(seconds);
        proof {
            reveal_strlit("e");
            reveal_strlit("token");
            lemma_decimal_ascii(seconds as nat);
            lemma_ascii_roundtrip(decimal(seconds as nat));
        }
        let start = match url.query.take() {
            Some(q) => q,
            None => {
                let e = String::new();
                assert(encode_utf8(e@) =~= Seq::<u8>::empty());
                e
            },
        };
        let with_deadline = append_query_pair(start, "e", deadline_text.as_str());
        let signed = append_query_pair(with_deadline, "token", token.as_str());
        url.query = Some(signed);
    }
}

/// Why a credential could not be given.
#[derive(Clone, Debug, PartialEq, Eq)]
pub struct CredentialError {
    pub message: String,
}

/// Something that gives a credential.
pub trait AsCredential {
    /// Getting the credential may give `r`. Unless a
    /// provider says more, it may give anything.
    open spec fn gives(&self, r: Result<Credential, CredentialError>) -> bool {
        true
    }

    /// Gives the credential.
    fn get(&self) -> (r: Result<Credential, CredentialError>)
        ensures
            self.gives(r),
    ;
}

/// `member` may fail.
pub open spec fn member_may_fail<P: AsCredential>(member: P) -> bool {
    exists|e: CredentialError| #[trigger] member.gives(Err(e))
}

/// Every member of `members` may fail.
pub open spec fn members_fail<P: AsCredential>(members: Seq<P>) -> bool {
    forall|j: int| 0 <= j < members.len() ==> #[trigger] member_may_fail(members[j])
}

/// A failure of the next member extends the failures of those before.
proof fn lemma_members_fail_one_more<P: AsCredential>(members: Seq<P>, i: int, e: CredentialError)
    requires
        0 <= i < members.len(),
        members_fail(members.take(i)),
        members[i].gives(Err(e)),
    ensures
        members_fail(members.take(i + 1)),
{
    let next = members.take(i + 1);
    assert forall|j: int| 0 <= j < next.len() implies #[trigger] member_may_fail(next[j]) by {
        if j < i {
            assert(next[j] == members.take(i)[j]);
            assert(member_may_fail(members.take(i)[j]));
        } else {
            assert(next[j] == members[i]);
            assert(next[j].gives(Err(e)));
        }
    }
}

/// A credential fixed at creation.
#[derive(PartialEq, Eq)]
pub struct StaticCredential {
    access_key: String,
    secret_key: String,
}

impl View for StaticCredential {
    type V = (Seq<char>, Seq<char>);

    closed spec fn view(&self) -> (Seq<char>, Seq<char>) {
        (self.access_key@, self.secret_key@)
    }
}

impl StaticCredential {
    /// A static credential of the two keys.
    pub fn new(access_key: String, secret_key: String) -> (c: Self)
        ensures
            c@ == (access_key@, secret_key@),
    {
        StaticCredential { access_key, secret_key }
    }

    /// The credential.
    pub fn credential(&self) -> (c: Credential)
        ensures
            c@ == self@,
    {
        Credential::new(self.access_key.clone(), self.secret_key.clone())
    }
}

impl AsCredential for StaticCredential {
    /// It gives its keys.
    open spec fn gives(&self, r: Result<Credential, CredentialError>) -> bool {
        r matches Ok(c) && c@ == self@
    }

    fn get(&self) -> (r: Result<Credential, CredentialError>) {
        Ok(self.credential())
    }
}

/// The credential set in a global place; the caller keeps that place and
/// hands over what it holds.
#[derive(Debug, PartialEq, Eq)]
pub struct GlobalCredential;

impl GlobalCredential {
    /// The credential set globally, or the error that none is set.
    pub fn get_from(&self, stored: Option<&Credential>) -> (r: Result<Credential, CredentialError>)
        ensures
            match stored {
                Some(c) => r matches Ok(x) && x@ == c@,
                None => r matches Err(e) && e.message@
                    == "GlobalCredential is not setuped, please call GlobalCredential::setup() to do it"@,
            },
    {
        match stored {
            Some(c) => Ok(c.duplicate()),
            None => Err(
                CredentialError {
                    message: "GlobalCredential is not setuped, please call GlobalCredential::setup() to do it".to_owned(),
                },
            ),
        }
    }
}

/// The credential in the environment variables `QINIU_ACCESS_KEY` and
/// `QINIU_SECRET_KEY`; the caller reads them and hands over their values.
#[derive(Debug, PartialEq, Eq)]
pub struct EnvCredential;

impl EnvCredential {
    /// The credential of the two variables where both are set, else the
    /// error that they are not.
    pub fn get_from(&self, access_key: Option<String>, secret_key: Option<String>) -> (r: Result<
        Credential,
        CredentialError,
    >)
        ensures
            match (access_key, secret_key) {
                (Some(ak), Some(sk)) => r matches Ok(c) && c@ == (ak@, sk@),
                _ => r is Err,
            },
    {
        match (access_key, secret_key) {
            (Some(ak), Some(sk)) => Ok(Credential::new(ak, sk)),
            _ => Err(
                CredentialError {
                    message: "EnvCredential is not setuped, please call EnvCredential::setup() to do it, or set environment variable `QINIU_ACCESS_KEY` and `QINIU_SECRET_KEY`".to_owned(),
                },
            ),
        }
    }
}

/// Credentials tried in turn; the first that gives one wins.
pub struct ChainCredentials<P> {
    credentials: Vec<P>,
}

impl<P> ChainCredentials<P> {
    /// The credentials, in the order they are tried.
    pub closed spec fn members(&self) -> Seq<P> {
        self.credentials@
    }
}

impl<P: AsCredential> AsCredential for ChainCredentials<P> {
    /// The credential of the first member that gives one, after members
    /// that all failed; or the error that all failed.
    open spec fn gives(&self, r: Result<Credential, CredentialError>) -> bool {
        match r {
            Ok(c) => exists|i: int|
                0 <= i < self.members().len() && #[trigger] self.members()[i].gives(Ok(c))
                    && members_fail(self.members().take(i)),
            Err(e) => members_fail(self.members()) && e.message@ == "All credentials are failed to get"@,
        }
    }

    /// Tries the credentials in order and gives the first that is there (the
    /// later ones are not asked); fails where all fail.
    fn get(&self) -> (r: Result<Credential, CredentialError>) {
        let mut i: usize = 0;
        while i < self.credentials.len()
            invariant
                i <= self.credentials@.len(),
                members_fail(self.members().take(i as int)),
            decreases self.credentials@.len() - i,
        {
            match self.credentials[i].get() {
                Ok(c) => {
                    proof {
                        assert(self.members()[i as int].gives(Ok(c)));
                    }
                    return Ok(c);
                },
                Err(e) => {
                    proof {
                        lemma_members_fail_one_more(self.members(), i as int, e);
                    }
                },
            }
            i = i + 1;
        }
        proof {
            assert(self.members().take(i as int) =~= self.members());
        }
        let r = Err(CredentialError { message: "All credentials are failed to get".to_owned() });
        proof {
            reveal_strlit("All credentials are failed to get");
        }
        r
    }
}

/// Builds a chain of credentials.
pub struct ChainCredentialsBuilder<P> {
    credentials: VecDeque<P>,
}

impl<P> ChainCredentialsBuilder<P> {
    /// The credentials so far, in order.
    pub closed spec fn members(&self) -> Seq<P> {
        self.credentials@
    }

    /// An empty builder.
    pub fn new() -> (b: Self)
        ensures
            b.members() == Seq::<P>::empty(),
    {
        ChainCredentialsBuilder { credentials: VecDeque::new() }
    }

    /// Adds a credential at the end.
    pub fn append_credential(self, credential: P) -> (b: Self)
        ensures
            b.members() == self.members().push(credential),
    {
        let mut credentials = self.credentials;
        credentials.push_back(credential);
        ChainCredentialsBuilder { credentials }
    }

    /// Adds a credential at the front.
    pub fn prepend_credential(self, credential: P) -> (b: Self)
        ensures
            b.members() == seq![credential] + self.members(),
    {
        let mut credentials = self.credentials;
        let ghost before = credentials@;
        credentials.push_front(credential);
        assert(credentials@ =~= seq![credential] + before);
        ChainCredentialsBuilder { credentials }
    }

    /// The chain, in the order built.
    pub fn build(self) -> (c: ChainCredentials<P>)
        ensures
            c.members() == self.members(),
    {
        let mut rest = self.credentials;
        let ghost all = rest@;
        let mut v: Vec<P> = Vec::new();
        while rest.len() > 0
            invariant
                v@ + rest@ == all,
            decreases rest@.len(),
        {
            let ghost before_v = v@;
            let ghost before_r = rest@;
            let x = rest.pop_front().unwrap();
            v.push(x);
            assert(v@ + rest@ =~= before_v + before_r);
        }
        assert(v@ =~= all);
        ChainCredentials { credentials: v }
    }
}

} // verus!
