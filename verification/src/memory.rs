//! The byte-addressable memory interface and its reference backend.

pub mod address;
pub mod vec_memory;

pub use vec_memory::VecMemory;

use vstd::prelude::*;
use crate::memory::address::Address;

verus! {

/// A byte-addressable memory over the full 16-bit address space.
///
/// The execution core depends only on this read/write contract; any
/// backend satisfying it (flat array, bank-switched, sparse) is
/// substitutable.
pub trait Memory {
    /// The byte stored at each address, as a mathematical map.
    spec fn mem_at(&self, address: u16) -> u8;

    /// Well-formedness of the backing store.
    spec fn inv(&self) -> bool;

    /// Reads the byte at the given address.
    fn read(&self, address: &Address) -> (value: u8)
        requires
            self.inv(),
        ensures
            value == self.mem_at(address.0),
    ;

    /// Writes the byte at the given address, leaving every other address
    /// untouched.
    fn write(&mut self, address: &Address, value: &u8)
        requires
            old(self).inv(),
        ensures
            final(self).inv(),
            final(self).mem_at(address.0) == *value,
            forall|other: u16|
                other != address.0 ==> final(self).mem_at(other) == old(self).mem_at(other),
    ;
}

} // verus!
