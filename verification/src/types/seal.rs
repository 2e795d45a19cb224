//! Keeps the set of payloads closed.

use vstd::prelude::*;

verus! {

/// Implemented by the payloads of this crate and by nothing else: the module is private, so
/// no other crate can name the trait.
pub trait Sealed {

}

} // verus!
