//! The types that can be the key of a cache are named here and nowhere else.

use vstd::prelude::*;

verus! {

/// A type that is let in as the key of a cache. Nothing outside this library
/// can add to these types.
pub trait Sealed {

}

impl Sealed for i64 {

}

impl Sealed for String {

}

} // verus!
