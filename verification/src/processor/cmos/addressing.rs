//! Address resolution: mapping an addressing mode and the current register
//! state to an operand value or an effective address, together with any
//! page-crossing cycle penalty.

use vstd::prelude::*;
use crate::memory::address::{wrap_add8, Address, AddressMode, ZeroPageAddress};
use crate::memory::Memory;
use crate::processor::cmos::{is_memory_mode, resolvable, CmosProcessor};

verus! {

impl<M: Memory> CmosProcessor<M> {
    /// Resolves a mode to the operand value an instruction consumes, with
    /// the page-crossing cycle penalty. Implied and immediate modes never
    /// touch memory.
    pub fn read_address(&self, address_mode: &AddressMode) -> (r: (u8, u8))
        requires
            self.inv(),
            resolvable(*address_mode),
        ensures
            r == self.spec_operand(*address_mode),
    {
        match self.translate_address(address_mode) {
            None => match address_mode {
                AddressMode::Implied => (0, 0),
                AddressMode::Immediate(value) => (*value, 0),
                _ => unreached(),
            },
            Some((address, additional_cycles)) => (self.memory.read(&address), additional_cycles),
        }
    }

    /// Resolves a memory mode to its effective address and the
    /// page-crossing cycle penalty; `None` for the implied and immediate
    /// modes, whose operand is embedded in the mode itself.
    pub fn translate_address(&self, address_mode: &AddressMode) -> (r: Option<(Address, u8)>)
        requires
            self.inv(),
            resolvable(*address_mode),
        ensures
            r == self.spec_translate(*address_mode),
            r is Some <==> is_memory_mode(*address_mode),
    {
        match address_mode {
            AddressMode::Implied => None,
            AddressMode::Immediate(_) => None,
            AddressMode::ZeroPage(zp_address) => Some((self.address_zeropage(zp_address), 0)),
            AddressMode::ZeroPageX(zp_address) => Some((self.address_zeropage_x(zp_address), 0)),
            AddressMode::ZeroPageY(_) => unreached(),
            AddressMode::Absolute(address) => Some((self.address_absolute(address), 0)),
            AddressMode::AbsoluteX(address) => Some(self.address_absolute_x(address)),
            AddressMode::AbsoluteY(address) => Some(self.address_absolute_y(address)),
            AddressMode::Indirect(address) => Some((self.address_absolute(address), 0)),
            AddressMode::PreIndexedIndirectX(zp_address) => Some(
                (self.address_preindexed_indirect_x(zp_address), 0),
            ),
            AddressMode::PostIndexedIndirectY(zp_address) => Some(
                self.address_postindexed_indirect_y(zp_address),
            ),
            AddressMode::Relative(_) => unreached(),
        }
    }

    /// Zero-page resolution: the 8-bit operand widened to a full address.
    fn address_zeropage(&self, zp_address: &ZeroPageAddress) -> (r: Address)
        ensures
            r.0 == zp_address.0 as u16,
    {
        zp_address.upgrade()
    }

    /// Zero-page-indexed resolution: the operand plus X, wrapping within
    /// page zero.
    fn address_zeropage_x(&self, zp_address: &ZeroPageAddress) -> (r: Address)
        ensures
            r.0 == wrap_add8(zp_address.0, self.x) as u16,
    {
        let zp_address = zp_address.wrapping_add(self.x);
        zp_address.upgrade()
    }

    /// Absolute resolution: the address as given.
    fn address_absolute(&self, address: &Address) -> (r: Address)
        ensures
            r == *address,
    {
        *address
    }

    /// Absolute-indexed resolution with X: the wrapped sum, and one extra
    /// cycle when the sum crossed a page boundary.
    fn address_absolute_x(&self, address: &Address) -> (r: (Address, u8))
        ensures
            Some(r) == self.spec_translate(AddressMode::AbsoluteX(*address)),
    {
        let (address, page_crossed) = address.add_check_page_cross(self.x);
        (address, if page_crossed { 1 } else { 0 })
    }

    /// Absolute-indexed resolution with Y: the wrapped sum, and one extra
    /// cycle when the sum crossed a page boundary.
    fn address_absolute_y(&self, address: &Address) -> (r: (Address, u8))
        ensures
            Some(r) == self.spec_translate(AddressMode::AbsoluteY(*address)),
    {
        let (address, page_crossed) = address.add_check_page_cross(self.y);
        (address, if page_crossed { 1 } else { 0 })
    }

    /// Pre-indexed indirect resolution: X is added to the zero-page
    /// operand (wrapping within page zero), and the effective address is
    /// the little-endian pointer stored there.
    fn address_preindexed_indirect_x(&self, zp_address: &ZeroPageAddress) -> (r: Address)
        requires
            self.inv(),
        ensures
            r.0 == self.pointer_at(
                wrap_add8(zp_address.0, self.x) as u16,
            ),
    {
        let lookup_address = zp_address.wrapping_add(self.x).upgrade();

        let address_low = self.memory.read(&lookup_address);
        let address_high = self.memory.read(&lookup_address.add(1u8));
        Address::from_bytes(address_low, address_high)
    }

    /// Post-indexed indirect resolution: the little-endian pointer stored
    /// at the zero-page operand is fetched first, then Y is added to it,
    /// with one extra cycle when that sum crossed a page boundary.
    fn address_postindexed_indirect_y(&self, zp_address: &ZeroPageAddress) -> (r: (Address, u8))
        requires
            self.inv(),
        ensures
            Some(r) == self.spec_translate(AddressMode::PostIndexedIndirectY(*zp_address)),
    {
        let lookup_address = zp_address.upgrade();

        let address_low = self.memory.read(&lookup_address);
        let address_high = self.memory.read(&lookup_address.add(1u8));
        let address = Address::from_bytes(address_low, address_high);

        let (address, page_crossed) = address.add_check_page_cross(self.y);

        (address, if page_crossed { 1 } else { 0 })
    }
}

} // verus!
