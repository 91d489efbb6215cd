//! The API-Gateway adapter's data plumbing: the request/response body type
//! and the path and query parameter maps, plus the proxy wrappers that pair
//! a service with the gateway's request and response shapes.

use vstd::prelude::*;
use vstd::string::StrSliceExecFns;
use vstd::string::StringSliceAdditionalSpecFns;
use vstd::utf8::{decode_utf8, encode_utf8, valid_utf8};

use crate::context::{lookup, spec_lookup};

verus! {

#[derive(Debug, Clone)]
enum Inner {
    Empty,
    Utf8(String),
    Binary(Vec<u8>),
}

/// A request or response body: empty, text, or raw bytes. Its view is the
/// byte sequence it carries on the wire.
#[derive(Debug, Clone)]
pub struct Body(Inner);

impl View for Body {
    type V = Seq<u8>;

    closed spec fn view(&self) -> Seq<u8> {
        match self.0 {
            Inner::Empty => encode_utf8(""@),
            Inner::Utf8(s) => encode_utf8(s@),
            Inner::Binary(b) => b@,
        }
    }
}

/// An empty body carries no bytes.
pub proof fn lemma_empty_body_bytes()
    ensures
        encode_utf8(""@) =~= Seq::<u8>::empty(),
{
    reveal_strlit("");
}

/// The fault of reading a binary body as text.
#[derive(Clone, Copy, Debug, PartialEq, Eq, Structural)]
pub struct NotText {}

/// Relies on core::str::from_utf8: it succeeds exactly on valid UTF-8 input
/// and yields the text the bytes encode.
#[verifier::external_body]
fn bytes_as_str(b: &[u8]) -> (r: Option<&str>)
    ensures
        r is Some <==> valid_utf8(b@),
        r matches Some(s) ==> s@ == decode_utf8(b@),
{
    core::str::from_utf8(b).ok()
}

impl Body {
    /// An empty body.
    pub fn empty() -> (r: Body)
        ensures
            r@ == encode_utf8(""@),
    {
        Body(Inner::Empty)
    }

    /// A body holding text.
    pub fn from_text(text: String) -> (r: Body)
        ensures
            r@ == encode_utf8(text@),
    {
        Body(Inner::Utf8(text))
    }

    /// A body holding raw bytes.
    pub fn from_bytes(bytes: Vec<u8>) -> (r: Body)
        ensures
            r@ == bytes@,
    {
        Body(Inner::Binary(bytes))
    }

    /// The bytes of the body.
    pub fn as_bytes(&self) -> (r: &[u8])
        ensures
            r@ == self@,
    {
        match &self.0 {
            Inner::Empty => "".as_bytes(),
            Inner::Utf8(text) => text.as_str().as_bytes(),
            Inner::Binary(bytes) => bytes.as_slice(),
        }
    }

    /// The body as text: refused exactly when the bytes are not valid UTF-8.
    pub fn as_str(&self) -> (r: Result<&str, NotText>)
        ensures
            r matches Ok(s) ==> encode_utf8(s@) == self@,
            r is Err ==> !valid_utf8(self@),
    {
        match &self.0 {
            Inner::Empty => Ok(""),
            Inner::Utf8(text) => Ok(text.as_str()),
            Inner::Binary(bytes) => match bytes_as_str(bytes.as_slice()) {
                Some(s) => {
                    proof {
                        vstd::utf8::decode_utf8_encode_utf8(bytes@);
                    }
                    Ok(s)
                },
                None => Err(NotText {}),
            },
        }
    }
}

impl Default for Body {
    fn default() -> (r: Body)
        ensures
            r@ == encode_utf8(""@),
    {
        Body(Inner::Empty)
    }
}

/// The path parameters of one gateway request.
#[derive(Debug)]
pub struct PathParameters(Vec<(String, String)>);

impl PathParameters {
    /// Wraps the given name/value pairs.
    pub fn new(pairs: Vec<(String, String)>) -> (r: PathParameters)
        ensures
            r@ == pairs.deep_view(),
    {
        PathParameters(pairs)
    }

    pub closed spec fn view(&self) -> Seq<(Seq<char>, Seq<char>)> {
        self.0.deep_view()
    }

    /// The value recorded under this name.
    pub fn get(&self, name: &str) -> (r: Option<&str>)
        ensures
            match r {
                Some(v) => spec_lookup(self@, name@) == Some(v@),
                None => spec_lookup(self@, name@) is None,
            },
    {
        lookup(&self.0, name)
    }
}

/// The query string parameters of one gateway request.
#[derive(Debug)]
pub struct QueryParameters(Vec<(String, String)>);

impl QueryParameters {
    /// Wraps the given name/value pairs.
    pub fn new(pairs: Vec<(String, String)>) -> (r: QueryParameters)
        ensures
            r@ == pairs.deep_view(),
    {
        QueryParameters(pairs)
    }

    pub closed spec fn view(&self) -> Seq<(Seq<char>, Seq<char>)> {
        self.0.deep_view()
    }

    /// The value recorded under this name.
    pub fn get(&self, name: &str) -> (r: Option<&str>)
        ensures
            match r {
                Some(v) => spec_lookup(self@, name@) == Some(v@),
                None => spec_lookup(self@, name@) is None,
            },
    {
        lookup(&self.0, name)
    }
}

/// A factory of gateway proxies: wraps a factory of inner services, handing
/// each accepted connection a proxy around a fresh instance.
pub struct NewApiGatewayProxy<S> {
    pub new_service: S,
}

impl<S> NewApiGatewayProxy<S> {
    /// Wraps the inner service factory.
    pub fn new(new_service: S) -> (r: NewApiGatewayProxy<S>)
        ensures
            r.new_service == new_service,
    {
        NewApiGatewayProxy { new_service }
    }
}

/// The per-connection gateway proxy around one inner service instance.
pub struct ApiGatewayProxy<S> {
    pub service: S,
}

impl<S> ApiGatewayProxy<S> {
    /// Wraps one inner service instance.
    pub fn new(service: S) -> (r: ApiGatewayProxy<S>)
        ensures
            r.service == service,
    {
        ApiGatewayProxy { service }
    }
}

#[verifier::external_type_specification]
#[verifier::external_body]
pub struct ExResponseBuilder(http::response::Builder);

/// Relies on http::response::Builder::new: a fresh response builder with
/// status 200 and no headers.
#[verifier::external_body]
fn response_builder_new() -> http::response::Builder {
    http::response::Builder::new()
}

/// A fresh builder for a gateway response.
pub fn response() -> http::response::Builder {
    response_builder_new()
}

} // verus!
