//! Keeps the set of transports closed.

use vstd::prelude::*;

verus! {

/// Implemented by the transports of this crate, and only by them.
pub trait Sealed {

}

} // verus!
