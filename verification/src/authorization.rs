//! Signing requests to Qiniu services: the `Authorization` header by an
//! upload token, or by a credential with algorithm V1 or V2.

use crate::credential::{
    content_type_of, opt_str_bytes, signature, v1_signs_body, v2_signs_body, Credential,
    CredentialGetError, CredentialProvider, GetOptions, GotCredential,
};
use crate::headers::{with_header, HeaderMap};
use crate::signing::{v1_data, v2_data, Method, RequestUri};
use crate::upload_token::{GotString, ToStringOptions, UploadTokenProvider};
use vstd::prelude::*;
use vstd::string::*;
use vstd::utf8::*;

verus! {

/// An HTTP request, as far as signing reads and writes it.
#[derive(Debug)]
pub struct Request {
    pub method: Method,
    pub url: RequestUri,
    pub headers: HeaderMap,
    pub body: Vec<u8>,
}

/// Why a request could not be signed.
#[derive(Debug, Clone, PartialEq, Eq)]
#[non_exhaustive]
pub enum AuthorizationError {
    /// No credential or upload token could be had; the provider's message.
    IOError(String),
    /// The URL of the request could not be parsed; the parser's message.
    UrlParseError(String),
}

/// `UpToken <token>`.
pub open spec fn uptoken_value(token: Seq<char>) -> Seq<char> {
    "UpToken "@ + token
}

/// The V1 `Authorization` value of `request` signed with the keys.
pub open spec fn v1_value(access_key: Seq<char>, secret_key: Seq<char>, request: Request) -> Seq<char> {
    let ct = content_type_of(request.headers@);
    "QBox "@ + signature(
        access_key,
        secret_key,
        v1_data(request.url, v1_signs_body(ct, request.body@), request.body@),
    )
}

/// The V2 `Authorization` value of `request` signed with the keys.
pub open spec fn v2_value(access_key: Seq<char>, secret_key: Seq<char>, request: Request) -> Seq<char> {
    let ct = content_type_of(request.headers@);
    "Qiniu "@ + signature(
        access_key,
        secret_key,
        v2_data(request.method, request.url, ct, request.headers@, v2_signs_body(ct), request.body@),
    )
}

/// The request with its `Authorization` header set to `value`.
pub open spec fn authorized(request: Request, after: Request, value: Seq<char>) -> bool {
    &&& after.method == request.method
    &&& after.url == request.url
    &&& after.body == request.body
    &&& after.headers@ == with_header(request.headers@, encode_utf8("Authorization"@), encode_utf8(value))
}

/// `UpToken <token>`, the `Authorization` value of an upload token.
pub fn uptoken_authorization(upload_token: &str) -> (s: String)
    ensures
        s@ == uptoken_value(upload_token@),
{
    let mut s = "UpToken ".to_owned();
    s.append(upload_token);
    s
}

/// The V1 `Authorization` value of a request: its content type is read
/// from its headers.
pub fn authorization_v1_for_request(credential: &Credential, request: &Request) -> (s: String)
    ensures
        s@ == v1_value(credential@.0, credential@.1, *request),
{
    proof {
        reveal_strlit("content-type");
    }
    let content_type = request.headers.get("content-type");
    let s = credential.authorization_v1_for_request(&request.url, content_type, request.body.as_slice());
    proof {
        assert(opt_str_bytes(content_type) == content_type_of(request.headers@));
    }
    s
}

/// The V2 `Authorization` value of a request.
pub fn authorization_v2_for_request(credential: &Credential, request: &Request) -> (s: String)
    ensures
        s@ == v2_value(credential@.0, credential@.1, *request),
{
    credential.authorization_v2_for_request(&request.method, &request.url, &request.headers, request.body.as_slice())
}

/// How a request is signed.
#[derive(Debug)]
pub enum Authorization<U, C> {
    /// By an upload token.
    UpToken(U),
    /// By a credential, with algorithm V1.
    V1(C),
    /// By a credential, with algorithm V2.
    V2(C),
}

impl<U, C> Authorization<U, C> {
    /// Signs by the tokens of `provider`.
    pub fn uptoken(provider: U) -> (a: Self)
        ensures
            a == Authorization::<U, C>::UpToken(provider),
    {
        Authorization::UpToken(provider)
    }

    /// Signs by the credentials of `provider`, with algorithm V1.
    pub fn v1(provider: C) -> (a: Self)
        ensures
            a == Authorization::<U, C>::V1(provider),
    {
        Authorization::V1(provider)
    }

    /// Signs by the credentials of `provider`, with algorithm V2.
    pub fn v2(provider: C) -> (a: Self)
        ensures
            a == Authorization::<U, C>::V2(provider),
    {
        Authorization::V2(provider)
    }

    /// Sets the `Authorization` header of `request` by an upload token.
    pub fn sign_with_token(request: &mut Request, token: &str)
        ensures
            authorized(*old(request), *final(request), uptoken_value(token@)),
    {
        let value = uptoken_authorization(token);
        proof {
            reveal_strlit("Authorization");
        }
        request.headers.insert("Authorization", value.as_str());
    }

    /// Sets the `Authorization` header of `request` by `credential`, with
    /// algorithm V1, or V2 where `v2`.
    pub fn sign_with_credential(request: &mut Request, credential: &Credential, v2: bool)
        ensures
            authorized(
                *old(request),
                *final(request),
                if v2 {
                    v2_value(credential@.0, credential@.1, *old(request))
                } else {
                    v1_value(credential@.0, credential@.1, *old(request))
                },
            ),
    {
        let value = if v2 {
            authorization_v2_for_request(credential, request)
        } else {
            authorization_v1_for_request(credential, request)
        };
        proof {
            reveal_strlit("Authorization");
        }
        request.headers.insert("Authorization", value.as_str());
    }
}

impl<U: UploadTokenProvider, C: CredentialProvider> Authorization<U, C> {
    /// Signs `request` as this authorization says: gets a token or a
    /// credential from the provider, and sets the `Authorization` header
    /// from it; where the provider fails, the request is left as it was.
    pub fn sign(&self, request: &mut Request) -> (r: Result<(), AuthorizationError>)
        ensures
            r is Err ==> *final(request) == *old(request),
            r matches Err(e) ==> e is IOError,
            match self {
                Authorization::UpToken(p) => exists|t: Result<GotString, CredentialGetError>|
                    #[trigger] p.token_gives(ToStringOptions {}, t) && match t {
                        Ok(s) => r is Ok && authorized(*old(request), *final(request), uptoken_value(s.text())),
                        Err(e) => r == Err::<(), AuthorizationError>(AuthorizationError::IOError(e.message))
                            && *final(request) == *old(request),
                    },
                Authorization::V1(p) => exists|g: Result<GotCredential, CredentialGetError>|
                    #[trigger] p.gives(GetOptions {}, g) && match g {
                        Ok(c) => r is Ok && authorized(
                            *old(request),
                            *final(request),
                            v1_value(c.credential_view().0, c.credential_view().1, *old(request)),
                        ),
                        Err(e) => r == Err::<(), AuthorizationError>(AuthorizationError::IOError(e.message))
                            && *final(request) == *old(request),
                    },
                Authorization::V2(p) => exists|g: Result<GotCredential, CredentialGetError>|
                    #[trigger] p.gives(GetOptions {}, g) && match g {
                        Ok(c) => r is Ok && authorized(
                            *old(request),
                            *final(request),
                            v2_value(c.credential_view().0, c.credential_view().1, *old(request)),
                        ),
                        Err(e) => r == Err::<(), AuthorizationError>(AuthorizationError::IOError(e.message))
                            && *final(request) == *old(request),
                    },
            },
    {
        match self {
            Authorization::UpToken(provider) => {
                let got = provider.to_token_string(&ToStringOptions {});
                proof {
                    assert(provider.token_gives(ToStringOptions {}, got));
                }
                match got {
                    Ok(token) => {
                        Self::sign_with_token(request, token.as_str());
                        Ok(())
                    },
                    Err(e) => Err(AuthorizationError::IOError(e.message)),
                }
            },
            Authorization::V1(provider) => {
                let got = provider.get(&GetOptions {});
                proof {
                    assert(provider.gives(GetOptions {}, got));
                }
                match got {
                    Ok(c) => {
                        Self::sign_with_credential(request, c.credential(), false);
                        Ok(())
                    },
                    Err(e) => Err(AuthorizationError::IOError(e.message)),
                }
            },
            Authorization::V2(provider) => {
                let got = provider.get(&GetOptions {});
                proof {
                    assert(provider.gives(GetOptions {}, got));
                }
                match got {
                    Ok(c) => {
                        Self::sign_with_credential(request, c.credential(), true);
                        Ok(())
                    },
                    Err(e) => Err(AuthorizationError::IOError(e.message)),
                }
            },
        }
    }
}

} // verus!
