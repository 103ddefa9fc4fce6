//! Address value types and the addressing-mode union.
//!
//! A full address is a 16-bit value whose arithmetic wraps modulo 65536;
//! a zero-page address is an 8-bit value whose arithmetic wraps modulo 256,
//! so it can never leave the first page.

use vstd::prelude::*;

verus! {

/// A 16-bit sum, wrapped modulo 65536.
pub open spec fn wrap_add16(a: u16, d: u16) -> u16 {
    ((a + d) % 0x10000) as u16
}

/// An 8-bit sum, wrapped modulo 256.
pub open spec fn wrap_add8(a: u8, d: u8) -> u8 {
    ((a + d) % 0x100) as u8
}

/// The page an address falls in: its high byte.
pub open spec fn page_of(a: u16) -> int {
    a as int / 0x100
}

/// The 16-bit address with the given low and high bytes (little-endian
/// composition).
pub open spec fn compose_address(low: u8, high: u8) -> u16 {
    (0x100 * high + low) as u16
}

/// Wrapped 16-bit address arithmetic always lands back in the 16-bit
/// address space, and wrapped zero-page arithmetic never leaves page zero.
pub proof fn lemma_wrapping_stays_in_range(a: u16, zp: u8, d: u8)
    ensures
        0 <= wrap_add16(a, d as u16) < 0x10000,
        0 <= wrap_add8(zp, d) < 0x100,
        page_of(wrap_add8(zp, d) as u16) == 0,
{
}

/// An 8-bit address within page zero.
#[derive(Debug, Clone, Copy)]
pub struct ZeroPageAddress(pub u8);

impl ZeroPageAddress {
    /// Adds an offset, wrapping modulo 256: the result stays in page zero.
    pub fn wrapping_add(self, rhs: u8) -> (r: Self)
        ensures
            r.0 == wrap_add8(self.0, rhs),
    {
        ZeroPageAddress(self.0.wrapping_add(rhs))
    }

    /// Widens to a full address with high byte zero.
    pub fn upgrade(&self) -> (r: Address)
        ensures
            r.0 == self.0 as u16,
    {
        Address(self.0 as u16)
    }
}

/// A full 16-bit address.
#[derive(Debug, Clone, Copy)]
pub struct Address(pub u16);

impl Address {
    /// Composes an address from its little-endian halves.
    pub fn from_bytes(low: u8, high: u8) -> (r: Self)
        ensures
            r.0 == compose_address(low, high),
    {
        let r = ((high as u16) << 8) | (low as u16);
        proof {
            let h = high as u16;
            let l = low as u16;
            assert(h < 0x100 && l < 0x100 ==> ((h << 8) | l) == 0x100 * h + l) by (bit_vector);
        }
        Address(r)
    }

    /// Adds an offset, wrapping modulo 65536, and reports whether the sum
    /// landed in a different page than the base (a page crossing).
    pub fn add_check_page_cross(self, rhs: u8) -> (r: (Self, bool))
        ensures
            r.0.0 == wrap_add16(self.0, rhs as u16),
            r.1 == (page_of(r.0.0) != page_of(self.0)),
    {
        let upper: u8 = (self.0 >> 8) as u8;
        let sum = self.0.wrapping_add(rhs as u16);
        let changed = (sum >> 8) as u8 != upper;
        proof {
            lemma_wrapping_add_is_wrap_add16(self.0, rhs as u16);
            lemma_high_byte_is_page(self.0);
            lemma_high_byte_is_page(sum);
        }
        (Self(sum), changed)
    }

    /// Adds an offset, wrapping modulo 65536.
    pub fn add(self, rhs: u8) -> (r: Self)
        ensures
            r.0 == wrap_add16(self.0, rhs as u16),
    {
        proof {
            lemma_wrapping_add_is_wrap_add16(self.0, rhs as u16);
        }
        Address(self.0.wrapping_add(rhs as u16))
    }
}

/// The standard library's wrapping 16-bit addition computes the sum
/// modulo 65536.
pub proof fn lemma_wrapping_add_is_wrap_add16(a: u16, d: u16)
    ensures
        vstd::wrapping::u16_specs::wrapping_add(a, d) == wrap_add16(a, d),
{
    if a + d > u16::MAX {
        assert((a + d) % 0x10000 == a + d - 0x10000);
    } else {
        assert((a + d) % 0x10000 == a + d);
    }
}

/// The high byte of an address identifies its page.
proof fn lemma_high_byte_is_page(a: u16)
    ensures
        (a >> 8) as u8 == page_of(a),
{
    assert((a >> 8) == a / 0x100) by (bit_vector);
    assert(a / 0x100 < 0x100);
}

/// The eleven addressing-mode variants plus the operand-free implied mode,
/// each carrying the operand needed to compute its effective address.
/// Immutable once constructed.
#[derive(Debug, Clone, Copy)]
pub enum AddressMode {
    Implied,
    Immediate(u8),
    ZeroPage(ZeroPageAddress),
    ZeroPageX(ZeroPageAddress),
    ZeroPageY(ZeroPageAddress),
    Absolute(Address),
    AbsoluteX(Address),
    AbsoluteY(Address),
    Indirect(Address),
    PreIndexedIndirectX(ZeroPageAddress),
    PostIndexedIndirectY(ZeroPageAddress),
    Relative(Address),
}

} // verus!
