use vstd::prelude::*;
use vstd::utf8::encode_utf8;

use serde::de::DeserializeOwned;
use serde::Serialize;

use rmp_serde::decode::Error as DecodeError;
use rmp_serde::encode::Error as EncodeError;

use crate::content_type::opt_string_view;
use crate::rejection::{InvalidMsgPackBody, MsgPackRejection};
use crate::response::{
    msgpack_content_type, msgpack_media_type, plain_text_content_type, plain_text_media_type,
    text_bytes, Response, STATUS_INTERNAL_SERVER_ERROR, STATUS_OK,
};

verus! {

#[verifier::external_type_specification]
#[verifier::external_body]
pub struct ExDecodeError(DecodeError);

#[verifier::external_type_specification]
#[verifier::external_body]
pub struct ExEncodeError(EncodeError);

/// Relies on `rmp_serde::from_slice`: decodes one MessagePack value, in map
/// or array layout, into a `T`.
#[verifier::external_body]
fn decode_slice<T: DeserializeOwned>(bytes: &[u8]) -> (r: Result<T, DecodeError>) {
    rmp_serde::from_slice(bytes)
}

/// Relies on `rmp_serde::encode::to_vec_named`: structs become maps keyed
/// by field name.
#[verifier::external_body]
pub(crate) fn encode_named<T: Serialize>(value: &T) -> (r: Result<Vec<u8>, EncodeError>) {
    rmp_serde::encode::to_vec_named(value)
}

/// Relies on `rmp_serde::encode::to_vec`: structs become arrays of their
/// fields in declaration order.
#[verifier::external_body]
pub(crate) fn encode_positional<T: Serialize>(value: &T) -> (r: Result<Vec<u8>, EncodeError>) {
    rmp_serde::encode::to_vec(value)
}

/// Turns the outcome of a decode, with a failure given as its display text,
/// into the extractor's result.
pub fn decoded_value<T>(decoded: Result<T, String>) -> (r: Result<T, MsgPackRejection>)
    ensures
        match decoded {
            Ok(v) => r == Ok::<T, MsgPackRejection>(v),
            Err(t) => match r {
                Err(MsgPackRejection::InvalidMsgPackBody(e)) => e.cause() == t@,
                _ => false,
            },
        },
{
    match decoded {
        Ok(v) => Ok(v),
        Err(t) => Err(MsgPackRejection::InvalidMsgPackBody(InvalidMsgPackBody::from_err(t))),
    }
}

/// Decodes a whole body into a `T`; any failure of the codec becomes an
/// `InvalidMsgPackBody` that carries the codec's own description.
pub fn decode_body<T: DeserializeOwned>(bytes: &[u8]) -> (r: Result<T, MsgPackRejection>)
    ensures
        match r {
            Ok(_) => true,
            Err(e) => e is InvalidMsgPackBody,
        },
{
    let decoded = match decode_slice::<T>(bytes) {
        Ok(v) => Ok(v),
        Err(e) => Err(e.to_string()),
    };
    decoded_value(decoded)
}

/// Builds the response for the outcome of an encode, with a failure given as
/// its display text: the bytes as MessagePack, or a 500 with the failure in
/// plain text.
pub fn encoded_response(encoded: Result<Vec<u8>, String>) -> (r: Response)
    ensures
        match encoded {
            Ok(b) => {
                &&& r.status == STATUS_OK
                &&& opt_string_view(r.content_type) == Some(msgpack_media_type())
                &&& r.body@ == b@
            },
            Err(t) => {
                &&& r.status == STATUS_INTERNAL_SERVER_ERROR
                &&& opt_string_view(r.content_type) == Some(plain_text_media_type())
                &&& r.body@ == encode_utf8(t@)
            },
        },
{
    match encoded {
        Ok(b) => Response { status: STATUS_OK, content_type: Some(msgpack_content_type()), body: b },
        Err(t) => Response {
            status: STATUS_INTERNAL_SERVER_ERROR,
            content_type: Some(plain_text_content_type()),
            body: text_bytes(t.as_str()),
        },
    }
}

/// What holds of every response built from an encode, whatever its outcome.
pub open spec fn is_encoded_response(r: Response) -> bool {
    ||| (r.status == STATUS_OK && opt_string_view(r.content_type) == Some(msgpack_media_type()))
    ||| (r.status == STATUS_INTERNAL_SERVER_ERROR && opt_string_view(r.content_type) == Some(
        plain_text_media_type(),
    ))
}

} // verus!
