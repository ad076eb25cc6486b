use vstd::prelude::*;

verus! {

/// Implemented only inside this crate: it seals the traits that require it.
pub trait Internal {

}

} // verus!
