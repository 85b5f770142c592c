//! The plain parts of the responses that the asset routes give.

use vstd::prelude::*;
use vstd::string::StrSliceExecFns;
use vstd::string::StringSliceAdditionalSpecFns;

verus! {

/// An HTTP status code.
#[derive(Clone, Copy, Debug, PartialEq, Eq, Structural)]
pub struct StatusCode(pub u16);

pub const OK: u16 = 200;

pub const CREATED: u16 = 201;

pub const UNAUTHORIZED: u16 = 401;

pub const NOT_FOUND: u16 = 404;

pub const UNSUPPORTED_MEDIA_TYPE: u16 = 415;

pub const INTERNAL_SERVER_ERROR: u16 = 500;

/// A response reduced to what the routes of this library decide: the status,
/// the two headers they set, and the body.
#[derive(Debug, PartialEq, Eq)]
pub struct Response {
    pub status: StatusCode,
    pub cache_control: Option<&'static str>,
    pub content_type: Option<&'static str>,
    pub body: Vec<u8>,
}

/// The mathematical content of a [`Response`].
pub struct ResponseView {
    pub status: StatusCode,
    pub cache_control: Option<Seq<char>>,
    pub content_type: Option<Seq<char>>,
    pub body: Seq<u8>,
}

impl View for Response {
    type V = ResponseView;

    open spec fn view(&self) -> ResponseView {
        ResponseView {
            status: self.status,
            cache_control: match self.cache_control {
                Some(text) => Some(text@),
                None => None,
            },
            content_type: match self.content_type {
                Some(text) => Some(text@),
                None => None,
            },
            body: self.body@,
        }
    }
}

/// The response for a static asset: cacheable by anyone for a week, with
/// the given content type.
pub open spec fn asset_response(content_type: Seq<char>, body: Seq<u8>) -> ResponseView {
    ResponseView {
        status: StatusCode(OK),
        cache_control: Some("public, max-age=604800"@),
        content_type: Some(content_type),
        body,
    }
}

/// The response that carries a status and nothing else.
pub open spec fn bare_response(status: StatusCode) -> ResponseView {
    ResponseView { status, cache_control: None, content_type: None, body: Seq::empty() }
}

/// What can be turned into a [`Response`].
pub trait IntoResponse: Sized {
    /// The response that `into_response` gives.
    spec fn response(self) -> ResponseView;

    fn into_response(self) -> (r: Response)
        ensures
            r@ == self.response(),
    ;
}

/// One of two alternatives, each of which can answer a request.
#[derive(Debug, PartialEq, Eq)]
pub enum Either<L, R> {
    Left(L),
    Right(R),
}

impl<L: IntoResponse, R: IntoResponse> IntoResponse for Either<L, R> {
    open spec fn response(self) -> ResponseView {
        match self {
            Either::Left(side) => side.response(),
            Either::Right(side) => side.response(),
        }
    }

    fn into_response(self) -> (r: Response) {
        match self {
            Either::Left(side) => side.into_response(),
            Either::Right(side) => side.into_response(),
        }
    }
}

impl IntoResponse for Response {
    open spec fn response(self) -> ResponseView {
        self@
    }

    fn into_response(self) -> (r: Response) {
        self
    }
}

impl IntoResponse for StatusCode {
    open spec fn response(self) -> ResponseView {
        bare_response(self)
    }

    fn into_response(self) -> (r: Response) {
        Response { status: self, cache_control: None, content_type: None, body: Vec::new() }
    }
}

/// A style sheet.
#[derive(Clone, Copy, Debug, PartialEq, Eq)]
pub struct Css(pub &'static str);

impl IntoResponse for Css {
    open spec fn response(self) -> ResponseView {
        asset_response("text/css; charset=UTF-8"@, self.0.spec_bytes())
    }

    fn into_response(self) -> (r: Response) {
        Response {
            status: StatusCode(OK),
            cache_control: Some("public, max-age=604800"),
            content_type: Some("text/css; charset=UTF-8"),
            body: self.0.as_bytes_vec(),
        }
    }
}

/// A script.
#[derive(Clone, Copy, Debug, PartialEq, Eq)]
pub struct Js(pub &'static str);

impl IntoResponse for Js {
    open spec fn response(self) -> ResponseView {
        asset_response("text/javascript; charset=UTF-8"@, self.0.spec_bytes())
    }

    fn into_response(self) -> (r: Response) {
        Response {
            status: StatusCode(OK),
            cache_control: Some("public, max-age=604800"),
            content_type: Some("text/javascript; charset=UTF-8"),
            body: self.0.as_bytes_vec(),
        }
    }
}

} // verus!
