//! The status register: one byte of independently settable flags with
//! fixed bit positions.

use vstd::prelude::*;

verus! {

pub const FLAG_NEGATIVE: u8 = 7;

pub const FLAG_OVERFLOW: u8 = 6;

/// Reserved: never semantically read by instruction logic.
pub const FLAG_UNUSED_5: u8 = 5;

pub const FLAG_BREAK: u8 = 4;

pub const FLAG_DECIMAL: u8 = 3;

pub const FLAG_INTERRUPT_DISABLE: u8 = 2;

pub const FLAG_ZERO: u8 = 1;

pub const FLAG_CARRY: u8 = 0;

/// Whether the given bit of a status byte is set.
pub open spec fn flag_set(byte: u8, n: u8) -> bool {
    (byte >> n) & 1 == 1
}

/// Clearing one bit lowers it and leaves every other bit as it was.
proof fn lemma_clear_bit(v: u8, n: u8)
    by (bit_vector)
    requires
        n < 8,
    ensures
        !flag_set(v & !(1u8 << n), n),
        forall|m: u8|
            m < 8 && m != n ==> flag_set(v & !(1u8 << n), m) == flag_set(v, m),
{
}

/// Clearing one bit and then or-ing a 0-or-1 value into it assigns that
/// bit and leaves every other bit as it was.
proof fn lemma_assign_bit(v: u8, n: u8, b: u8)
    by (bit_vector)
    requires
        n < 8,
        b <= 1,
    ensures
        flag_set((v & !(1u8 << n)) | (b << n), n) == (b == 1),
        forall|m: u8|
            m < 8 && m != n ==> flag_set((v & !(1u8 << n)) | (b << n), m) == flag_set(v, m),
{
}

/// Reading a bit as 0-or-1 agrees with reading it as a boolean.
proof fn lemma_read_bit(v: u8, n: u8)
    by (bit_vector)
    requires
        n < 8,
    ensures
        (v >> n) & 1 <= 1,
        ((v >> n) & 1 == 1) == flag_set(v, n),
{
}

/// The 8-bit flag register. Each flag is independently readable and
/// writable; no flag implies another.
#[derive(Debug)]
pub struct Status(pub u8);

impl Default for Status {
    /// A status register with every flag clear.
    fn default() -> (r: Self)
        ensures
            r.0 == 0,
    {
        Status(0)
    }
}

impl Status {
    /// Whether flag `n` is set.
    pub fn get_bit(&self, n: u8) -> (r: bool)
        requires
            n < 8,
        ensures
            r == flag_set(self.0, n),
    {
        self.get_bit_u8(n) == 1
    }

    /// Flag `n` as 1 or 0.
    pub fn get_bit_u8(&self, n: u8) -> (r: u8)
        requires
            n < 8,
        ensures
            r == if flag_set(self.0, n) { 1u8 } else { 0u8 },
    {
        proof {
            lemma_read_bit(self.0, n);
        }
        self.0 >> n & 1
    }

    /// Lowers flag `n`, leaving every other flag as it was.
    pub fn clear_bit(&mut self, n: u8)
        requires
            n < 8,
        ensures
            final(self).0 == (old(self).0 & !(1u8 << n)),
            !flag_set(final(self).0, n),
            forall|m: u8|
                m < 8 && m != n ==> flag_set(final(self).0, m) == flag_set(old(self).0, m),
    {
        proof {
            lemma_clear_bit(self.0, n);
        }
        self.0 = self.0 & !(1u8 << n);
    }

    /// Raises flag `n`, leaving every other flag as it was.
    pub fn enable_bit(&mut self, n: u8)
        requires
            n < 8,
        ensures
            final(self).0 == (old(self).0 | (1u8 << n)),
            flag_set(final(self).0, n),
            forall|m: u8|
                m < 8 && m != n ==> flag_set(final(self).0, m) == flag_set(old(self).0, m),
    {
        proof {
            let v = self.0;
            assert((v & !(1u8 << n)) | (1u8 << n) == v | (1u8 << n)) by (bit_vector);
        }
        self.set_bit(n, true)
    }

    /// Sets flag `n` to `value`, leaving every other flag as it was.
    pub fn set_bit(&mut self, n: u8, value: bool)
        requires
            n < 8,
        ensures
            final(self).0 == ((old(self).0 & !(1u8 << n)) | ((if value {
                1u8
            } else {
                0u8
            }) << n)),
            flag_set(final(self).0, n) == value,
            forall|m: u8|
                m < 8 && m != n ==> flag_set(final(self).0, m) == flag_set(old(self).0, m),
    {
        proof {
            lemma_assign_bit(self.0, n, if value { 1u8 } else { 0u8 });
        }
        self.0 = (self.0 & !(1u8 << n)) | ((if value { 1u8 } else { 0u8 }) << n);
    }
}

} // verus!
