use vstd::prelude::*;

use crate::content_type::{is_msgpack_header, message_pack_content_type};
use crate::rejection::{
    BodyAlreadyExtracted, HeadersAlreadyExtracted, MissingMsgPackContentType, MsgPackRejection,
};

verus! {

/// The request headers that the codec reads.
#[derive(Debug, Clone)]
pub struct HeaderSet {
    /// The raw bytes of the `Content-Type` header, if the request has one.
    pub content_type: Option<Vec<u8>>,
}

impl View for HeaderSet {
    type V = Option<Seq<u8>>;

    open spec fn view(&self) -> Option<Seq<u8>> {
        match self.content_type {
            Some(v) => Some(v@),
            None => None,
        }
    }
}

impl HeaderSet {
    pub fn new(content_type: Option<Vec<u8>>) -> (r: HeaderSet)
        ensures
            r.content_type == content_type,
    {
        HeaderSet { content_type }
    }
}

/// The single-use parts of one request, as seen by the codec: `None` in a
/// field once an extractor has taken it.
pub struct RequestState {
    pub headers: Option<Option<Seq<u8>>>,
    pub body: Option<Seq<u8>>,
}

impl RequestState {
    pub open spec fn without_body(self) -> RequestState {
        RequestState { body: None, ..self }
    }

    pub open spec fn without_headers(self) -> RequestState {
        RequestState { headers: None, ..self }
    }
}

/// One request's headers and body, each of which can be taken at most once.
#[derive(Debug)]
pub struct RequestParts {
    headers: Option<HeaderSet>,
    body: Option<Vec<u8>>,
}

impl View for RequestParts {
    type V = RequestState;

    closed spec fn view(&self) -> RequestState {
        RequestState {
            headers: match self.headers {
                Some(h) => Some(h@),
                None => None,
            },
            body: match self.body {
                Some(b) => Some(b@),
                None => None,
            },
        }
    }
}

impl RequestParts {
    pub fn new(headers: HeaderSet, body: Vec<u8>) -> (r: RequestParts)
        ensures
            r@ == (RequestState { headers: Some(headers@), body: Some(body@) }),
    {
        RequestParts { headers: Some(headers), body: Some(body) }
    }

    /// The headers, unless an extractor has taken them.
    pub fn headers(&self) -> (r: Option<&HeaderSet>)
        ensures
            match r {
                Some(h) => self@.headers == Some(h@),
                None => self@.headers is None,
            },
    {
        match &self.headers {
            Some(h) => Some(h),
            None => None,
        }
    }

    /// Takes the headers out; later calls see none.
    pub fn take_headers(&mut self) -> (r: Option<HeaderSet>)
        ensures
            final(self)@ == old(self)@.without_headers(),
            match r {
                Some(h) => old(self)@.headers == Some(h@),
                None => old(self)@.headers is None,
            },
    {
        self.headers.take()
    }

    /// Takes the body out; later calls see none.
    pub fn take_body(&mut self) -> (r: Option<Vec<u8>>)
        ensures
            final(self)@ == old(self)@.without_body(),
            match r {
                Some(b) => old(self)@.body == Some(b@),
                None => old(self)@.body is None,
            },
    {
        self.body.take()
    }
}

/// Claims the request body. The first call hands over the bytes; every later
/// call fails, so that a second extractor cannot mistake a taken body for an
/// empty one.
pub fn take_body(req: &mut RequestParts) -> (r: Result<Vec<u8>, BodyAlreadyExtracted>)
    ensures
        final(req)@ == old(req)@.without_body(),
        match r {
            Ok(b) => old(req)@.body == Some(b@),
            Err(_) => old(req)@.body is None,
        },
{
    match req.take_body() {
        Some(b) => Ok(b),
        None => Err(BodyAlreadyExtracted),
    }
}

/// Whether the request is marked as MessagePack; fails when the headers were
/// taken by another extractor.
pub fn has_content_type(req: &RequestParts) -> (r: Result<bool, HeadersAlreadyExtracted>)
    ensures
        match req@.headers {
            None => r is Err,
            Some(h) => r == Ok::<bool, HeadersAlreadyExtracted>(is_msgpack_header(h)),
        },
{
    match req.headers() {
        Some(h) => Ok(message_pack_content_type(h)),
        None => Err(HeadersAlreadyExtracted),
    }
}

/// Acquiring the body leaves the request without one, whatever the outcome,
/// so a second acquisition always fails; and acquiring again changes nothing
/// more.
pub proof fn body_is_taken_at_most_once(s: RequestState)
    ensures
        s.without_body().body is None,
        s.without_body().without_body() == s.without_body(),
        s.without_body().headers == s.headers,
{
}


/// Why an extractor cannot get at a MessagePack body, checked in order:
/// the headers are gone, the `Content-Type` does not name MessagePack, the
/// body is gone. `None` where the body can be taken.
pub open spec fn acquire_rejection(s: RequestState) -> Option<MsgPackRejection> {
    match s.headers {
        None => Some(MsgPackRejection::HeadersAlreadyExtracted(HeadersAlreadyExtracted)),
        Some(h) => if !is_msgpack_header(h) {
            Some(MsgPackRejection::MissingMsgPackContentType(MissingMsgPackContentType))
        } else if s.body is None {
            Some(MsgPackRejection::BodyAlreadyExtracted(BodyAlreadyExtracted))
        } else {
            None
        },
    }
}

/// The request after an extractor tried to get at its body: the body is
/// gone exactly when the headers named MessagePack.
pub open spec fn after_acquire(s: RequestState) -> RequestState {
    match s.headers {
        Some(h) => if is_msgpack_header(h) {
            s.without_body()
        } else {
            s
        },
        None => s,
    }
}

/// Classifies the request and, where it carries MessagePack, claims its body.
pub fn acquire_body(req: &mut RequestParts) -> (r: Result<Vec<u8>, MsgPackRejection>)
    ensures
        final(req)@ == after_acquire(old(req)@),
        match r {
            Ok(b) => acquire_rejection(old(req)@) is None && old(req)@.body == Some(b@),
            Err(e) => acquire_rejection(old(req)@) == Some(e),
        },
{
    match has_content_type(req) {
        Err(e) => Err(MsgPackRejection::HeadersAlreadyExtracted(e)),
        Ok(false) => Err(MsgPackRejection::MissingMsgPackContentType(MissingMsgPackContentType)),
        Ok(true) => match take_body(req) {
            Ok(b) => Ok(b),
            Err(e) => Err(MsgPackRejection::BodyAlreadyExtracted(e)),
        },
    }
}


/// Once an extractor has got past the checks and claimed the body, whether
/// or not its decode then succeeds, any further extractor on the same
/// request is refused with `BodyAlreadyExtracted`; a refused extractor
/// leaves the request as it was.
pub proof fn second_extraction_is_refused(s: RequestState)
    ensures
        acquire_rejection(s) is None ==> acquire_rejection(after_acquire(s)) == Some(
            MsgPackRejection::BodyAlreadyExtracted(BodyAlreadyExtracted),
        ),
        acquire_rejection(s) is Some ==> after_acquire(s) == s,
{
}

} // verus!
