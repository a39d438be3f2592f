//! The carrier type of the marshalling layers.
use vstd::prelude::*;

verus! {

/// A type without values of interest, on which the marshalling layers are
/// implemented.
#[derive(Clone, Copy, Debug)]
pub struct Void;

} // verus!
