//! MessagePack bodies for HTTP handlers: deciding from the `Content-Type`
//! header whether a request carries MessagePack, claiming its body once,
//! decoding it into a typed value, and encoding typed values into responses
//! in named (map) or positional (array) layout.

pub mod codec;
pub mod content_type;
pub mod error;
pub mod msgpack;
pub mod msgpackraw;
pub mod rejection;
pub mod request;
pub mod response;

pub use content_type::{message_pack_content_type, ContentType};
pub use error::Error;
pub use msgpack::MsgPack;
pub use msgpackraw::MsgPackRaw;
pub use rejection::{
    BodyAlreadyExtracted, HeadersAlreadyExtracted, InvalidMsgPackBody, MissingMsgPackContentType,
    MsgPackRejection,
};
pub use request::{acquire_body, has_content_type, take_body, HeaderSet, RequestParts};
pub use response::Response;
