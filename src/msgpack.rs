use vstd::prelude::*;

use serde::de::DeserializeOwned;
use serde::Serialize;

use crate::codec::{decode_body, encode_named, encoded_response, is_encoded_response};
use crate::rejection::MsgPackRejection;
use crate::request::{acquire_body, acquire_rejection, after_acquire, RequestParts};
use crate::response::Response;

verus! {

/// A value carried as MessagePack with named fields: encoded as a map from
/// field name to value.
#[derive(Debug, Clone, Copy, Default)]
pub struct MsgPack<T>(pub T);

impl<T> MsgPack<T> {
    /// Extracts a value from a request whose `Content-Type` names
    /// MessagePack, claiming its body.
    pub fn from_request(req: &mut RequestParts) -> (r: Result<MsgPack<T>, MsgPackRejection>)
        where
            T: DeserializeOwned,
        ensures
            final(req)@ == after_acquire(old(req)@),
            match r {
                Ok(_) => acquire_rejection(old(req)@) is None,
                Err(e) => match acquire_rejection(old(req)@) {
                    Some(f) => e == f,
                    None => e is InvalidMsgPackBody,
                },
            },
    {
        let bytes = match acquire_body(req) {
            Ok(b) => b,
            Err(e) => return Err(e),
        };
        match decode_body::<T>(bytes.as_slice()) {
            Ok(v) => Ok(MsgPack(v)),
            Err(e) => Err(e),
        }
    }

    /// Encodes the value with field names into a MessagePack response, or
    /// into a plain-text 500 where the codec cannot represent it.
    pub fn into_response(self) -> (r: Response)
        where
            T: Serialize,
        ensures
            is_encoded_response(r),
    {
        let encoded = match encode_named(&self.0) {
            Ok(b) => Ok(b),
            Err(e) => Err(e.to_string()),
        };
        encoded_response(encoded)
    }
}

impl<T> core::ops::Deref for MsgPack<T> {
    type Target = T;

    fn deref(&self) -> (r: &T)
        ensures
            *r == self.0,
    {
        &self.0
    }
}

impl<T> core::ops::DerefMut for MsgPack<T> {
    fn deref_mut(&mut self) -> (r: &mut T)
        ensures
            *r == old(self).0,
            final(self).0 == *final(r),
    {
        &mut self.0
    }
}

impl<T> From<T> for MsgPack<T> {
    fn from(inner: T) -> (r: Self) {
        MsgPack(inner)
    }
}

impl<T> vstd::std_specs::convert::FromSpecImpl<T> for MsgPack<T> {
    open spec fn obeys_from_spec() -> bool {
        true
    }

    open spec fn from_spec(inner: T) -> Self {
        MsgPack(inner)
    }
}

} // verus!
