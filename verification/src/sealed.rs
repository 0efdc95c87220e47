//! Traits that only the types of this crate have.
use vstd::prelude::*;

verus! {

/// Marks the channels of this crate.
pub trait Sealed {

}

} // verus!
