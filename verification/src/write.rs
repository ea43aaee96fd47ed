use vstd::prelude::*;

verus! {

/// Byte-addressable write access to a memory bus.
pub trait Write<T, U> {
    fn write(&mut self, address: T, data: U);
}

} // verus!
