//! The bounded buffer into which a login body is read.

use vstd::prelude::*;
use crate::error::AuthError;

verus! {

/// The most bytes that a login body may have.
pub const MAX_BODY_BYTES: usize = 4096;

/// The bytes of a request body received so far, never more than
/// `MAX_BODY_BYTES` of them.
#[derive(PartialEq, Eq)]
pub struct BodyBuffer {
    bytes: Vec<u8>,
}

impl View for BodyBuffer {
    type V = Seq<u8>;

    closed spec fn view(&self) -> Seq<u8> {
        self.bytes@
    }
}

impl BodyBuffer {
    #[verifier::type_invariant]
    spec fn within_limit(self) -> bool {
        self.bytes@.len() <= MAX_BODY_BYTES
    }

    /// An empty buffer.
    pub fn new() -> (buffer: BodyBuffer)
        ensures
            buffer@ == Seq::<u8>::empty(),
    {
        BodyBuffer { bytes: Vec::new() }
    }

    /// The number of bytes received so far.
    pub fn len(&self) -> (len: usize)
        ensures
            len == self@.len(),
            len <= MAX_BODY_BYTES,
    {
        proof {
            use_type_invariant(self);
        }
        self.bytes.len()
    }

    /// Appends a data frame. A frame that would take the body past the limit
    /// is refused with `IOError`, and the buffer stays as it was.
    pub fn load(&mut self, frame: &[u8]) -> (result: Result<(), AuthError>)
        ensures
            old(self)@.len() + frame@.len() <= MAX_BODY_BYTES ==> result is Ok && final(self)@
                == old(self)@ + frame@,
            old(self)@.len() + frame@.len() > MAX_BODY_BYTES ==> result == Err::<(), AuthError>(
                AuthError::IOError,
            ) && final(self)@ == old(self)@,
            final(self)@.len() <= MAX_BODY_BYTES,
    {
        proof {
            use_type_invariant(&*self);
        }
        if frame.len() > MAX_BODY_BYTES - self.bytes.len() {
            return Err(AuthError::IOError);
        }
        let mut bytes: Vec<u8> = Vec::new();
        core::mem::swap(&mut self.bytes, &mut bytes);
        bytes.extend_from_slice(frame);
        assert(bytes@ =~= old(self).bytes@ + frame@);
        core::mem::swap(&mut self.bytes, &mut bytes);
        Ok(())
    }

    /// Hands the received bytes out.
    pub fn into_bytes(self) -> (bytes: Vec<u8>)
        ensures
            bytes@ == self@,
            bytes@.len() <= MAX_BODY_BYTES,
    {
        proof {
            use_type_invariant(&self);
        }
        self.bytes
    }
}

} // verus!
