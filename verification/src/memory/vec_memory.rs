//! The reference memory backend: a flat 65536-byte array.

use vstd::prelude::*;
use crate::memory::address::Address;
use crate::memory::Memory;

verus! {

/// A flat, zero-initialized 65536-byte memory.
pub struct VecMemory(Vec<u8>);

impl Default for VecMemory {
    /// Builds a memory with every address holding zero.
    fn default() -> (r: Self)
        ensures
            r.inv(),
            forall|a: u16| r.mem_at(a) == 0,
    {
        let mut bytes: Vec<u8> = Vec::new();
        let mut i: usize = 0;
        while i < 0x10000
            invariant
                bytes@.len() == i,
                i <= 0x10000,
                forall|k: int| 0 <= k < i ==> bytes@[k] == 0,
            decreases 0x10000 - i,
        {
            bytes.push(0);
            i = i + 1;
        }
        VecMemory(bytes)
    }
}

impl Memory for VecMemory {
    closed spec fn mem_at(&self, address: u16) -> u8 {
        self.0@[address as int]
    }

    closed spec fn inv(&self) -> bool {
        self.0@.len() == 0x10000
    }

    fn read(&self, address: &Address) -> (value: u8) {
        self.0[address.0 as usize]
    }

    fn write(&mut self, address: &Address, value: &u8) {
        self.0[address.0 as usize] = *value;
    }
}

} // verus!
