//! Places that bytes are written to.
use crate::error::IoError;
use smallvec::SmallVec;
use vstd::prelude::*;

verus! {

/// `after` is `before` with the first few bytes of `bytes` written to it.
pub open spec fn is_partly_written(before: Seq<u8>, bytes: Seq<u8>, after: Seq<u8>) -> bool {
    &&& before.len() <= after.len() <= before.len() + bytes.len()
    &&& after == before + bytes.take(after.len() - before.len())
}

/// Something that bytes can be written to, one slice after another.
pub trait ByteSink: Sized {
    /// All bytes that were written, in order.
    spec fn written(&self) -> Seq<u8>;

    /// The most bytes that may be written in all.
    spec fn max_written() -> nat;

    /// The error of the last write that failed.
    spec fn failure(&self) -> Option<IoError>;

    /// Writes all of `bytes`, or fails after having written some of them.
    fn write_all(&mut self, bytes: &[u8]) -> (r: Result<(), IoError>)
        requires
            old(self).written().len() + bytes@.len() <= Self::max_written(),
        ensures
            match r {
                Ok(()) => {
                    &&& final(self).written() == old(self).written() + bytes@
                    &&& final(self).failure() == old(self).failure()
                },
                Err(e) => {
                    &&& is_partly_written(old(self).written(), bytes@, final(self).written())
                    &&& final(self).failure() == Some(e)
                },
            },
    ;
}

impl ByteSink for Vec<u8> {
    open spec fn written(&self) -> Seq<u8> {
        self@
    }

    open spec fn max_written() -> nat {
        isize::MAX as nat
    }

    open spec fn failure(&self) -> Option<IoError> {
        None
    }

    fn write_all(&mut self, bytes: &[u8]) -> (r: Result<(), IoError>) {
        self.extend_from_slice(bytes);
        assert(self@ =~= old(self)@ + bytes@);
        Ok(())
    }
}

/// A buffer for a frame. Small frames take no allocation.
#[verifier::external_body]
#[derive(Debug)]
pub struct FrameBuf {
    inner: SmallVec<[u8; 128]>,
}

/// The bytes that a [`FrameBuf`] holds, in order.
pub uninterp spec fn frame_buf_bytes(buf: FrameBuf) -> Seq<u8>;

impl View for FrameBuf {
    type V = Seq<u8>;

    open spec fn view(&self) -> Seq<u8> {
        frame_buf_bytes(*self)
    }
}

impl FrameBuf {
    /// `SmallVec::new`: the new buffer holds no bytes.
    #[verifier::external_body]
    pub(crate) fn new() -> (buf: Self)
        ensures
            frame_buf_bytes(buf) == Seq::<u8>::empty(),
    {
        FrameBuf { inner: SmallVec::new() }
    }

    /// `SmallVec::extend_from_slice`: the bytes of the slice come after those that the buffer
    /// holds.
    ///
    /// The capacity is rounded up to a power of two, and one above `isize::MAX` panics, so the
    /// new length is at most a quarter of the address space.
    #[verifier::external_body]
    pub(crate) fn extend_from_slice(&mut self, bytes: &[u8])
        requires
            frame_buf_bytes(*old(self)).len() + bytes@.len() <= usize::MAX / 4,
        ensures
            frame_buf_bytes(*final(self)) == frame_buf_bytes(*old(self)) + bytes@,
    {
        self.inner.extend_from_slice(bytes)
    }

    /// `SmallVec::as_slice`: the slice has the bytes that the buffer holds.
    #[verifier::external_body]
    pub(crate) fn as_inner_slice(&self) -> (bytes: &[u8])
        ensures
            bytes@ == frame_buf_bytes(*self),
    {
        self.inner.as_slice()
    }

    /// `SmallVec::clear`: afterwards the buffer holds no bytes.
    #[verifier::external_body]
    pub(crate) fn clear_inner(&mut self)
        ensures
            frame_buf_bytes(*final(self)) == Seq::<u8>::empty(),
    {
        self.inner.clear()
    }

    /// The bytes that the buffer holds.
    pub fn as_slice(&self) -> (bytes: &[u8])
        ensures
            bytes@ == self@,
    {
        self.as_inner_slice()
    }
}

impl ByteSink for FrameBuf {
    open spec fn written(&self) -> Seq<u8> {
        self@
    }

    open spec fn max_written() -> nat {
        (usize::MAX / 4) as nat
    }

    open spec fn failure(&self) -> Option<IoError> {
        None
    }

    fn write_all(&mut self, bytes: &[u8]) -> (r: Result<(), IoError>) {
        self.extend_from_slice(bytes);
        Ok(())
    }
}

} // verus!
