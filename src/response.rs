use vstd::prelude::*;
use vstd::slice::slice_to_vec;
use vstd::utf8::encode_utf8;

verus! {

pub const STATUS_OK: u16 = 200;

pub const STATUS_BAD_REQUEST: u16 = 400;

pub const STATUS_INTERNAL_SERVER_ERROR: u16 = 500;

/// The media type announced for every successfully encoded body.
pub open spec fn msgpack_media_type() -> Seq<char> {
    "application/msgpack"@
}

/// The media type announced when encoding failed and the body is the
/// failure's text.
pub open spec fn plain_text_media_type() -> Seq<char> {
    "text/plain"@
}

/// An outbound HTTP message as the server collaborator consumes it:
/// a status code, an optional `Content-Type` value and the body bytes.
#[derive(Debug, Clone)]
pub struct Response {
    pub status: u16,
    pub content_type: Option<String>,
    pub body: Vec<u8>,
}

/// The UTF-8 bytes of a text, as a freshly owned buffer.
pub fn text_bytes(text: &str) -> (r: Vec<u8>)
    ensures
        r@ == encode_utf8(text@),
{
    slice_to_vec(text.as_bytes())
}

pub fn msgpack_content_type() -> (r: String)
    ensures
        r@ == msgpack_media_type(),
{
    "application/msgpack".to_owned()
}

pub fn plain_text_content_type() -> (r: String)
    ensures
        r@ == plain_text_media_type(),
{
    "text/plain".to_owned()
}

impl Response {
    /// A response with the given status, no `Content-Type` and the text as body.
    pub fn from_text(status: u16, text: &str) -> (r: Response)
        ensures
            r.status == status,
            r.content_type is None,
            r.body@ == encode_utf8(text@),
    {
        Response { status, content_type: None, body: text_bytes(text) }
    }
}

} // verus!
