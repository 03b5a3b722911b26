use vstd::prelude::*;
use vstd::utf8::encode_utf8;

use crate::error::Error;
use crate::response::{Response, STATUS_BAD_REQUEST, STATUS_INTERNAL_SERVER_ERROR};

verus! {

pub open spec fn invalid_body_text() -> Seq<char> {
    "Failed to parse the request body as MsgPack"@
}

pub open spec fn invalid_body_prefix() -> Seq<char> {
    "Failed to parse the request body as MsgPack: "@
}

pub open spec fn missing_content_type_text() -> Seq<char> {
    "Expected request with `Content-Type: application/msgpack`"@
}

pub open spec fn body_already_extracted_text() -> Seq<char> {
    "Cannot have two request body extractors for a single handler"@
}

pub open spec fn headers_already_extracted_text() -> Seq<char> {
    "Headers taken by other extractor"@
}

/// Rejection used when the body could not be decoded; it keeps the
/// codec's own description of what went wrong.
#[derive(Debug, Clone)]
#[non_exhaustive]
pub struct InvalidMsgPackBody(Error);

impl InvalidMsgPackBody {
    pub closed spec fn cause(&self) -> Seq<char> {
        self.0@
    }

    /// Wraps the display text of a codec error.
    pub fn from_err(cause: String) -> (r: InvalidMsgPackBody)
        ensures
            r.cause() == cause@,
    {
        InvalidMsgPackBody(Error::new(cause))
    }

    /// The wrapped cause, as given to `from_err`.
    pub fn source(&self) -> (r: &Error)
        ensures
            r@ == self.cause(),
    {
        &self.0
    }

    pub fn to_string(&self) -> (r: String)
        ensures
            r@ == invalid_body_text(),
    {
        "Failed to parse the request body as MsgPack".to_owned()
    }

    /// The client sent a body that is not a value of the expected shape: 400,
    /// with the cause appended to a fixed sentence.
    pub fn into_response(self) -> (r: Response)
        ensures
            r.status == STATUS_BAD_REQUEST,
            r.content_type is None,
            r.body@ == encode_utf8(invalid_body_prefix() + self.cause()),
    {
        let text = "Failed to parse the request body as MsgPack: ".to_owned();
        let text = text.concat(self.0.to_string().as_str());
        Response::from_text(STATUS_BAD_REQUEST, text.as_str())
    }
}

/// Rejection used when the `Content-Type` header is absent or does not name
/// the MessagePack format.
#[derive(Debug, Clone, Copy)]
#[non_exhaustive]
pub struct MissingMsgPackContentType;

impl MissingMsgPackContentType {
    pub fn to_string(&self) -> (r: String)
        ensures
            r@ == missing_content_type_text(),
    {
        "Expected request with `Content-Type: application/msgpack`".to_owned()
    }

    pub fn into_response(self) -> (r: Response)
        ensures
            r.status == STATUS_BAD_REQUEST,
            r.content_type is None,
            r.body@ == encode_utf8(missing_content_type_text()),
    {
        Response::from_text(
            STATUS_BAD_REQUEST,
            "Expected request with `Content-Type: application/msgpack`",
        )
    }
}

/// Rejection used when the request body was already claimed by another extractor.
#[derive(Debug, Clone, Copy)]
#[non_exhaustive]
pub struct BodyAlreadyExtracted;

impl BodyAlreadyExtracted {
    pub fn to_string(&self) -> (r: String)
        ensures
            r@ == body_already_extracted_text(),
    {
        "Cannot have two request body extractors for a single handler".to_owned()
    }

    pub fn into_response(self) -> (r: Response)
        ensures
            r.status == STATUS_INTERNAL_SERVER_ERROR,
            r.content_type is None,
            r.body@ == encode_utf8(body_already_extracted_text()),
    {
        Response::from_text(
            STATUS_INTERNAL_SERVER_ERROR,
            "Cannot have two request body extractors for a single handler",
        )
    }
}

/// Rejection used when the request headers were already claimed by another extractor.
#[derive(Debug, Clone, Copy, Default)]
#[non_exhaustive]
pub struct HeadersAlreadyExtracted;

impl HeadersAlreadyExtracted {
    pub fn to_string(&self) -> (r: String)
        ensures
            r@ == headers_already_extracted_text(),
    {
        "Headers taken by other extractor".to_owned()
    }

    pub fn into_response(self) -> (r: Response)
        ensures
            r.status == STATUS_INTERNAL_SERVER_ERROR,
            r.content_type is None,
            r.body@ == encode_utf8(headers_already_extracted_text()),
    {
        Response::from_text(STATUS_INTERNAL_SERVER_ERROR, "Headers taken by other extractor")
    }
}

/// Every way in which extracting a MessagePack body can fail.
#[derive(Debug, Clone)]
#[non_exhaustive]
pub enum MsgPackRejection {
    InvalidMsgPackBody(InvalidMsgPackBody),
    MissingMsgPackContentType(MissingMsgPackContentType),
    BodyAlreadyExtracted(BodyAlreadyExtracted),
    HeadersAlreadyExtracted(HeadersAlreadyExtracted),
}

/// The status code a rejection is rendered with: 400 for what the client
/// sent, 500 for two extractors competing for the same request.
pub open spec fn rejection_status(r: MsgPackRejection) -> u16 {
    match r {
        MsgPackRejection::InvalidMsgPackBody(_) => STATUS_BAD_REQUEST,
        MsgPackRejection::MissingMsgPackContentType(_) => STATUS_BAD_REQUEST,
        MsgPackRejection::BodyAlreadyExtracted(_) => STATUS_INTERNAL_SERVER_ERROR,
        MsgPackRejection::HeadersAlreadyExtracted(_) => STATUS_INTERNAL_SERVER_ERROR,
    }
}

/// The text of the body a rejection is rendered with.
pub open spec fn rejection_body_text(r: MsgPackRejection) -> Seq<char> {
    match r {
        MsgPackRejection::InvalidMsgPackBody(e) => invalid_body_prefix() + e.cause(),
        MsgPackRejection::MissingMsgPackContentType(_) => missing_content_type_text(),
        MsgPackRejection::BodyAlreadyExtracted(_) => body_already_extracted_text(),
        MsgPackRejection::HeadersAlreadyExtracted(_) => headers_already_extracted_text(),
    }
}

/// The short description of a rejection, as its inner value describes itself.
pub open spec fn rejection_text(r: MsgPackRejection) -> Seq<char> {
    match r {
        MsgPackRejection::InvalidMsgPackBody(_) => invalid_body_text(),
        MsgPackRejection::MissingMsgPackContentType(_) => missing_content_type_text(),
        MsgPackRejection::BodyAlreadyExtracted(_) => body_already_extracted_text(),
        MsgPackRejection::HeadersAlreadyExtracted(_) => headers_already_extracted_text(),
    }
}

impl MsgPackRejection {
    pub fn into_response(self) -> (r: Response)
        ensures
            r.status == rejection_status(self),
            r.content_type is None,
            r.body@ == encode_utf8(rejection_body_text(self)),
    {
        match self {
            MsgPackRejection::InvalidMsgPackBody(inner) => inner.into_response(),
            MsgPackRejection::MissingMsgPackContentType(inner) => inner.into_response(),
            MsgPackRejection::BodyAlreadyExtracted(inner) => inner.into_response(),
            MsgPackRejection::HeadersAlreadyExtracted(inner) => inner.into_response(),
        }
    }

    pub fn to_string(&self) -> (r: String)
        ensures
            r@ == rejection_text(*self),
    {
        match self {
            MsgPackRejection::InvalidMsgPackBody(inner) => inner.to_string(),
            MsgPackRejection::MissingMsgPackContentType(inner) => inner.to_string(),
            MsgPackRejection::BodyAlreadyExtracted(inner) => inner.to_string(),
            MsgPackRejection::HeadersAlreadyExtracted(inner) => inner.to_string(),
        }
    }
}

impl From<InvalidMsgPackBody> for MsgPackRejection {
    fn from(inner: InvalidMsgPackBody) -> (r: Self) {
        MsgPackRejection::InvalidMsgPackBody(inner)
    }
}

impl vstd::std_specs::convert::FromSpecImpl<InvalidMsgPackBody> for MsgPackRejection {
    open spec fn obeys_from_spec() -> bool {
        true
    }

    open spec fn from_spec(inner: InvalidMsgPackBody) -> Self {
        MsgPackRejection::InvalidMsgPackBody(inner)
    }
}

impl From<MissingMsgPackContentType> for MsgPackRejection {
    fn from(inner: MissingMsgPackContentType) -> (r: Self) {
        MsgPackRejection::MissingMsgPackContentType(inner)
    }
}

impl vstd::std_specs::convert::FromSpecImpl<MissingMsgPackContentType> for MsgPackRejection {
    open spec fn obeys_from_spec() -> bool {
        true
    }

    open spec fn from_spec(inner: MissingMsgPackContentType) -> Self {
        MsgPackRejection::MissingMsgPackContentType(inner)
    }
}

impl From<BodyAlreadyExtracted> for MsgPackRejection {
    fn from(inner: BodyAlreadyExtracted) -> (r: Self) {
        MsgPackRejection::BodyAlreadyExtracted(inner)
    }
}

impl vstd::std_specs::convert::FromSpecImpl<BodyAlreadyExtracted> for MsgPackRejection {
    open spec fn obeys_from_spec() -> bool {
        true
    }

    open spec fn from_spec(inner: BodyAlreadyExtracted) -> Self {
        MsgPackRejection::BodyAlreadyExtracted(inner)
    }
}

impl From<HeadersAlreadyExtracted> for MsgPackRejection {
    fn from(inner: HeadersAlreadyExtracted) -> (r: Self) {
        MsgPackRejection::HeadersAlreadyExtracted(inner)
    }
}

impl vstd::std_specs::convert::FromSpecImpl<HeadersAlreadyExtracted> for MsgPackRejection {
    open spec fn obeys_from_spec() -> bool {
        true
    }

    open spec fn from_spec(inner: HeadersAlreadyExtracted) -> Self {
        MsgPackRejection::HeadersAlreadyExtracted(inner)
    }
}

} // verus!
