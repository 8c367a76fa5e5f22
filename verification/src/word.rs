//! Four-byte big-endian machine words.

use vstd::prelude::*;

verus! {

/// A 4-byte big-endian value: `b0` is the most significant byte and
/// `b3` the least significant (for a shift operand, `b3` is the byte
/// that holds the shift amount).
#[derive(Clone, Copy, Debug, PartialEq, Eq, Structural)]
pub struct Word {
    pub b0: u8,
    pub b1: u8,
    pub b2: u8,
    pub b3: u8,
}

impl Word {
    /// The 32-bit value the four bytes spell in big-endian order.
    pub open spec fn value(self) -> nat {
        self.b0 as nat * 0x100_0000 + self.b1 as nat * 0x1_0000 + self.b2 as nat * 0x100
            + self.b3 as nat
    }

    /// Splits a 32-bit value into its big-endian bytes.
    pub fn from_u32(x: u32) -> (r: Word)
        ensures
            r.b0 == x as nat / 0x100_0000,
            r.b1 == (x as nat / 0x1_0000) % 0x100,
            r.b2 == (x as nat / 0x100) % 0x100,
            r.b3 == x as nat % 0x100,
            r.value() == x,
    {
        let b0 = (x >> 24) as u8;
        let b1 = ((x >> 16) & 0xff) as u8;
        let b2 = ((x >> 8) & 0xff) as u8;
        let b3 = (x & 0xff) as u8;
        proof {
            assert((x >> 24) == x / 0x100_0000 && (x >> 24) < 0x100 && ((x >> 16) & 0xff) == (x
                / 0x1_0000) % 0x100 && ((x >> 8) & 0xff) == (x / 0x100) % 0x100 && (x & 0xff) == x
                % 0x100) by (bit_vector);
            assert((x / 0x100_0000) * 0x100_0000 + ((x / 0x1_0000) % 0x100) * 0x1_0000 + ((x
                / 0x100) % 0x100) * 0x100 + x % 0x100 == x) by (bit_vector);
        }
        Word { b0, b1, b2, b3 }
    }

    /// The weighted sum of the big-endian bytes of a 32-bit value
    /// recombines to the value itself.
    pub proof fn lemma_byte_recomposition(x: u32)
        ensures
            (x as nat / 0x100_0000) * 0x100_0000 + ((x as nat / 0x1_0000) % 0x100) * 0x1_0000 + ((
            x as nat / 0x100) % 0x100) * 0x100 + x as nat % 0x100 == x,
    {
        assert((x / 0x100_0000) * 0x100_0000 + ((x / 0x1_0000) % 0x100) * 0x1_0000 + ((x / 0x100)
            % 0x100) * 0x100 + x % 0x100 == x) by (bit_vector);
    }

    /// Recombines the four bytes into the 32-bit value they spell.
    pub fn to_u32(&self) -> (r: u32)
        ensures
            r == self.value(),
    {
        (self.b0 as u32) * 0x100_0000 + (self.b1 as u32) * 0x1_0000 + (self.b2 as u32) * 0x100
            + self.b3 as u32
    }
}

} // verus!
