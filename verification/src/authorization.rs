//! Classification of a server's authentication challenge and construction
//! of the `Basic` authorization header value from negotiated credentials.

use vstd::prelude::*;
use crate::headers::Headers;

verus! {

/// Enum for the different types of authorization required by a remote document.
#[derive(Clone, Copy, PartialEq, Eq, Structural, Debug)]
pub enum AuthorizationType {
    Basic,
    Digest,
    Unknown,
}

impl AuthorizationType {
    /// The scheme's name, as it appears in a challenge header.
    pub fn scheme_name(&self) -> (r: String)
        ensures
            match *self {
                AuthorizationType::Basic => r@ == "Basic"@,
                AuthorizationType::Digest => r@ == "Digest"@,
                AuthorizationType::Unknown => r@ == "Unknown"@,
            },
    {
        match self {
            AuthorizationType::Basic => "Basic".to_owned(),
            AuthorizationType::Digest => "Digest".to_owned(),
            AuthorizationType::Unknown => "Unknown".to_owned(),
        }
    }
}

/// True when the challenge's first token is exactly `Basic`: the bytes
/// `B a s i c`, ended by the end of the header or by a space.
pub open spec fn spec_is_basic_challenge(h: Seq<u8>) -> bool {
    &&& h.len() >= 5
    &&& h[0] == 66u8
    &&& h[1] == 97u8
    &&& h[2] == 115u8
    &&& h[3] == 105u8
    &&& h[4] == 99u8
    &&& (h.len() == 5 || h[5] == 32u8)
}

/// True when the challenge's first token is exactly `Digest`: the bytes
/// `D i g e s t`, ended by the end of the header or by a space.
pub open spec fn spec_is_digest_challenge(h: Seq<u8>) -> bool {
    &&& h.len() >= 6
    &&& h[0] == 68u8
    &&& h[1] == 105u8
    &&& h[2] == 103u8
    &&& h[3] == 101u8
    &&& h[4] == 115u8
    &&& h[5] == 116u8
    &&& (h.len() == 6 || h[6] == 32u8)
}

/// The authorization scheme named by the first token of a raw
/// `WWW-Authenticate` header value.
pub open spec fn spec_challenge_scheme(h: Seq<u8>) -> AuthorizationType {
    if spec_is_basic_challenge(h) {
        AuthorizationType::Basic
    } else if spec_is_digest_challenge(h) {
        AuthorizationType::Digest
    } else {
        AuthorizationType::Unknown
    }
}

/// The authorization scheme demanded by a set of response headers: `None`
/// when no challenge header is present.
pub open spec fn spec_authorization_type(h: Headers) -> Option<AuthorizationType> {
    match h.www_authenticate {
        Some(raw) => Some(spec_challenge_scheme(raw@)),
        None => None,
    }
}

/// Classify the scheme token that starts a raw challenge header value.
fn classify_challenge_scheme(h: &Vec<u8>) -> (t: AuthorizationType)
    ensures
        t == spec_challenge_scheme(h@),
{
    let n = h.len();
    if n >= 5 && h[0] == 66 && h[1] == 97 && h[2] == 115 && h[3] == 105 && h[4] == 99
        && (n == 5 || h[5] == 32) {
        AuthorizationType::Basic
    } else if n >= 6 && h[0] == 68 && h[1] == 105 && h[2] == 103 && h[3] == 101 && h[4] == 115
        && h[5] == 116 && (n == 6 || h[6] == 32) {
        AuthorizationType::Digest
    } else {
        AuthorizationType::Unknown
    }
}

/// Trait to extend functionalities of the Headers type
pub trait GetAuthorizationType {
    /// The scheme of the challenge these headers carry, if any.
    spec fn spec_authorization(&self) -> Option<AuthorizationType>;

    /// Function to get the authorization type (if any) of a remote document.
    /// The returned type is `Option<AuthorizationType>`.
    fn get_authorization_type(&self) -> (r: Option<AuthorizationType>)
        ensures
            r == self.spec_authorization(),
    ;
}

impl GetAuthorizationType for Headers {
    open spec fn spec_authorization(&self) -> Option<AuthorizationType> {
        spec_authorization_type(*self)
    }

    /// Function to get the `WWW-Authenticate` container, from a given header.
    /// This function returns an Option that contains a `AuthorizationType` type.
    fn get_authorization_type(&self) -> Option<AuthorizationType> {
        match &self.www_authenticate {
            Some(raw) => Some(classify_challenge_scheme(raw)),
            None => None,
        }
    }
}

/// The base64 credential token that the `Basic` scheme sends: a function of
/// the username and password alone.
pub uninterp spec fn basic_credentials_token(
    username: Seq<char>,
    password: Option<Seq<char>>,
) -> Seq<char>;

/// The full `Basic` authorization header value for the given credentials.
pub open spec fn spec_basic_header_value(
    username: Seq<char>,
    password: Option<Seq<char>>,
) -> Seq<char> {
    seq!['B', 'a', 's', 'i', 'c', ' '] + basic_credentials_token(username, password)
}

/// Relies on `hyper::header::Basic` and its `Scheme` formatting: the header
/// value is `Basic `, then the base64 encoding of `username:password`
/// (the password part empty when no password was given), which depends on
/// the credentials alone.
#[verifier::external_body]
fn hyper_basic_header_value(username: &String, password: &Option<String>) -> (r: String)
    ensures
        r@ == seq!['B', 'a', 's', 'i', 'c', ' '] + basic_credentials_token(
            username@,
            password.deep_view(),
        ),
{
    let basic = hyper::header::Basic {
        username: username.clone(),
        password: password.clone(),
    };
    format!("{}", hyper::header::HeaderFormatter(&hyper::header::Authorization(basic)))
}

/// A negotiated credential, together with the scheme it belongs to.  Only
/// the `Basic` scheme can be materialized into a header value.
#[derive(Clone, Debug)]
pub struct AuthorizationHeaderFactory {
    pub authorization_type: AuthorizationType,
    pub username: String,
    pub password: Option<String>,
}

impl AuthorizationHeaderFactory {
    pub fn new(
        authorization_type: AuthorizationType,
        username: String,
        password: Option<String>,
    ) -> (r: AuthorizationHeaderFactory)
        ensures
            r.authorization_type == authorization_type,
            r.username == username,
            r.password == password,
    {
        AuthorizationHeaderFactory {
            authorization_type: authorization_type,
            username: username,
            password: password,
        }
    }

    /// Materialize the credential into an authorization header value.  Only
    /// a `Basic` factory may reach this point: the negotiator never builds
    /// one with another scheme.
    pub fn build_header(&self) -> (r: String)
        requires
            self.authorization_type is Basic,
        ensures
            r@ == spec_basic_header_value(self.username@, self.password.deep_view()),
    {
        hyper_basic_header_value(&self.username, &self.password)
    }
}

} // verus!
