//! A binary-compatible object/interface model: reference-counted objects that
//! expose one or more capabilities (interfaces), each identified by a 16-byte
//! identifier and served through a dispatch table at a fixed offset inside the
//! composite object.

use vstd::prelude::*;

pub mod funknown;
pub mod host;
pub mod interface;
pub mod ipluginbase;
pub mod markers;
pub mod uid;
pub mod vstaudioprocessor;
pub mod vtable;

verus! {

/// Adds two machine words.
pub fn add(left: usize, right: usize) -> (r: usize)
    requires
        left + right <= usize::MAX,
    ensures
        r == left + right,
{
    left + right
}

} // verus!
