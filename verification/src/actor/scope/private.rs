//! Keeps the scopes to those of this library.
use vstd::prelude::*;

verus! {

/// Only the scopes of this library have it.
pub trait Sealed {

}

} // verus!
