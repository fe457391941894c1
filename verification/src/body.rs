//! One-shot response bodies: a body hands out its whole content as a single
//! chunk on the first pull and reports the end of the stream ever after.

use vstd::prelude::*;
use vstd::utf8::encode_utf8;

verus! {

/// A body over a fixed byte sequence that lives as long as the program.
#[derive(Debug, PartialEq, Eq)]
pub struct ConstantBody {
    /// The bytes of the body.
    pub data: &'static [u8],
    /// Whether the bytes were handed out.
    pub done: bool,
}

impl ConstantBody {
    /// A body that has not yet handed out `data`.
    pub fn new(data: &'static [u8]) -> (body: Self)
        ensures
            body == (ConstantBody { data, done: false }),
    {
        Self { data, done: false }
    }
}

/// The single chunk that a body hands out.
#[derive(Debug, PartialEq, Eq)]
pub enum Chunk {
    /// Bytes borrowed from the program itself.
    Static(&'static [u8]),
    /// Text that the body owned, such as a freshly issued token.
    Owned(String),
}

impl Chunk {
    /// The bytes that the chunk puts on the wire.
    pub open spec fn bytes(self) -> Seq<u8> {
        match self {
            Chunk::Static(data) => data@,
            Chunk::Owned(text) => encode_utf8(text@),
        }
    }
}

/// A response body: either fixed bytes or one owned string.
#[derive(Debug, PartialEq, Eq)]
pub enum AuthBody {
    /// Fixed bytes, with a mark that says whether they were handed out.
    Constant(ConstantBody),
    /// An owned string, gone once it was handed out.
    StringBody(Option<String>),
}

impl AuthBody {
    /// The bytes that the body has yet to hand out.
    pub open spec fn remaining(self) -> Seq<u8> {
        match self {
            AuthBody::Constant(items) => if items.done {
                Seq::empty()
            } else {
                items.data@
            },
            AuthBody::StringBody(Some(text)) => encode_utf8(text@),
            AuthBody::StringBody(None) => Seq::empty(),
        }
    }

    /// Whether the body has handed out its chunk.
    pub open spec fn ended(self) -> bool {
        match self {
            AuthBody::Constant(items) => items.done,
            AuthBody::StringBody(text) => text is None,
        }
    }

    /// The chunk that the next pull yields, if any.
    pub open spec fn next_chunk(self) -> Option<Chunk> {
        match self {
            AuthBody::Constant(items) => if items.done {
                None
            } else {
                Some(Chunk::Static(items.data))
            },
            AuthBody::StringBody(Some(text)) => Some(Chunk::Owned(text)),
            AuthBody::StringBody(None) => None,
        }
    }

    /// The same body after its chunk was handed out.
    pub open spec fn consumed(self) -> AuthBody {
        match self {
            AuthBody::Constant(items) => AuthBody::Constant(
                ConstantBody { data: items.data, done: true },
            ),
            AuthBody::StringBody(_) => AuthBody::StringBody(None),
        }
    }

    /// A body that will hand out `s` once.
    pub fn new_string(s: String) -> (body: Self)
        ensures
            body == AuthBody::StringBody(Some(s)),
            !body.ended(),
            body.remaining() == encode_utf8(s@),
    {
        AuthBody::StringBody(Some(s))
    }

    /// A body that will hand out `data` once.
    pub fn new_constant(data: &'static [u8]) -> (body: Self)
        ensures
            body == AuthBody::Constant(ConstantBody { data, done: false }),
            !body.ended(),
            body.remaining() == data@,
    {
        AuthBody::Constant(ConstantBody::new(data))
    }

    /// Pulls the next chunk. The first pull of a fresh body yields all of its
    /// bytes; every later pull yields `None` and leaves the body as it is.
    pub fn poll_frame(&mut self) -> (frame: Option<Chunk>)
        ensures
            frame == old(self).next_chunk(),
            *final(self) == old(self).consumed(),
            old(self).ended() ==> frame is None && *final(self) == *old(self),
            !old(self).ended() ==> frame is Some && frame->0.bytes() == old(self).remaining(),
            final(self).ended(),
            final(self).remaining() == Seq::<u8>::empty(),
    {
        match self {
            AuthBody::Constant(items) => {
                if items.done {
                    None
                } else {
                    items.done = true;
                    Some(Chunk::Static(items.data))
                }
            },
            AuthBody::StringBody(items) => {
                match items.take() {
                    None => None,
                    Some(text) => Some(Chunk::Owned(text)),
                }
            },
        }
    }

    /// Whether every later pull will yield `None`.
    pub fn is_end_stream(&self) -> (ended: bool)
        ensures
            ended == self.ended(),
    {
        match self {
            AuthBody::Constant(items) => items.done,
            AuthBody::StringBody(items) => items.is_none(),
        }
    }

    /// The exact number of bytes that the body has yet to hand out.
    pub fn size_hint(&self) -> (exact: u64)
        ensures
            exact == self.remaining().len(),
            self.ended() ==> exact == 0,
    {
        match self {
            AuthBody::Constant(items) => {
                if items.done {
                    0
                } else {
                    items.data.len() as u64
                }
            },
            AuthBody::StringBody(items) => {
                match items {
                    Some(text) => text.as_str().as_bytes().len() as u64,
                    None => 0,
                }
            },
        }
    }
}

} // verus!
