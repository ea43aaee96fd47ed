use vstd::prelude::*;

verus! {

/// Byte-addressable read access to a memory bus.  `read_only` is the
/// side-effect-free variant meant for debugging and disassembly; on a
/// flat RAM bus it behaves exactly like `read`.
pub trait Read<T, U> {
    fn read(&self, address: T) -> Option<U>;

    fn read_only(&self, address: T) -> Option<U>;
}

} // verus!
