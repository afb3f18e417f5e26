pub mod binder;
pub mod codec;
pub mod device;
pub mod dispatch;
pub mod error;
pub mod kernel;
pub mod laws;
pub mod manager;
pub mod simulator;

use vstd::prelude::*;

verus! {

/// Number of elements in every vector this library dispatches.
pub const VECTOR_LENGTH: usize = 5;

/// Size in bytes of one vector element.
pub const ELEMENT_SIZE: usize = 4;

/// Total byte size of a buffer holding one full vector.
pub open spec fn buffer_byte_size_spec() -> u64 {
    (VECTOR_LENGTH * ELEMENT_SIZE) as u64
}

/// Total byte size of a buffer holding one full vector.
pub fn buffer_byte_size() -> (r: usize)
    ensures
        r == VECTOR_LENGTH * ELEMENT_SIZE,
{
    VECTOR_LENGTH * ELEMENT_SIZE
}

} // verus!
