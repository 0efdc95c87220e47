//! No channels, used when no communication is needed.
use vstd::prelude::*;

verus! {

/// A sender that does nothing.
#[derive(Debug, Clone, Copy, PartialEq, Eq, Structural)]
pub struct NoSender;

impl crate::sealed::Sealed for NoSender {

}

/// A receiver that does nothing.
#[derive(Debug, Clone, Copy, PartialEq, Eq, Structural)]
pub struct NoReceiver;

impl crate::sealed::Sealed for NoReceiver {

}

} // verus!
