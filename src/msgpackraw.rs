use vstd::prelude::*;

use serde::de::DeserializeOwned;
use serde::Serialize;

use crate::codec::{decode_body, encode_positional, encoded_response, is_encoded_response};
use crate::rejection::MsgPackRejection;
use crate::request::{acquire_body, acquire_rejection, after_acquire, RequestParts};
use crate::response::Response;

verus! {

/// A value carried as MessagePack without field names: a struct is encoded
/// as an array of its fields in declaration order.
///
/// Sender and receiver must agree on that order out of band. Where two
/// fields of compatible types are declared in different orders on the two
/// sides, decoding succeeds with their values swapped; nothing on the wire
/// can tell.
#[derive(Debug, Clone, Copy, Default)]
pub struct MsgPackRaw<T>(pub T);

impl<T> MsgPackRaw<T> {
    /// Extracts a value from a request whose `Content-Type` names
    /// MessagePack, claiming its body.
    pub fn from_request(req: &mut RequestParts) -> (r: Result<MsgPackRaw<T>, MsgPackRejection>)
        where
            T: DeserializeOwned,
        ensures
            final(req)@ == after_acquire(old(req)@),
            match r {
                Ok(_) => acquire_rejection(old(req)@) is None,
                Err(e) => match acquire_rejection(old(req)@) {
                    Some(f) => e == f,
                    None => e is InvalidMsgPackBody,
                },
            },
    {
        let bytes = match acquire_body(req) {
            Ok(b) => b,
            Err(e) => return Err(e),
        };
        match decode_body::<T>(bytes.as_slice()) {
            Ok(v) => Ok(MsgPackRaw(v)),
            Err(e) => Err(e),
        }
    }

    /// Encodes the value positionally into a MessagePack response, or
    /// into a plain-text 500 where the codec cannot represent it.
    pub fn into_response(self) -> (r: Response)
        where
            T: Serialize,
        ensures
            is_encoded_response(r),
    {
        let encoded = match encode_positional(&self.0) {
            Ok(b) => Ok(b),
            Err(e) => Err(e.to_string()),
        };
        encoded_response(encoded)
    }
}

impl<T> core::ops::Deref for MsgPackRaw<T> {
    type Target = T;

    fn deref(&self) -> (r: &T)
        ensures
            *r == self.0,
    {
        &self.0
    }
}

impl<T> core::ops::DerefMut for MsgPackRaw<T> {
    fn deref_mut(&mut self) -> (r: &mut T)
        ensures
            *r == old(self).0,
            final(self).0 == *final(r),
    {
        &mut self.0
    }
}

impl<T> From<T> for MsgPackRaw<T> {
    fn from(inner: T) -> (r: Self) {
        MsgPackRaw(inner)
    }
}

impl<T> vstd::std_specs::convert::FromSpecImpl<T> for MsgPackRaw<T> {
    open spec fn obeys_from_spec() -> bool {
        true
    }

    open spec fn from_spec(inner: T) -> Self {
        MsgPackRaw(inner)
    }
}

} // verus!
