//! Field elements for the chip's trace.
//!
//! Every value a chip commits to is an element of a prime field whose
//! modulus is large enough that single bytes, 32-bit words and the
//! power-of-two column (at most 2^31) embed without wrapping.  The
//! modulus used here is 2^64 - 2^32 + 1.

use vstd::prelude::*;

verus! {

/// Modulus of the field: the prime 2^64 - 2^32 + 1.
pub const FIELD_MODULUS: u64 = 0xffff_ffff_0000_0001;

/// Reduction of a mathematical integer into the field.
pub open spec fn freduce(a: nat) -> nat {
    a % (FIELD_MODULUS as nat)
}

/// Field addition on canonical representatives.
pub open spec fn fadd(a: nat, b: nat) -> nat {
    (a + b) % (FIELD_MODULUS as nat)
}

/// Field multiplication on canonical representatives.
pub open spec fn fmul(a: nat, b: nat) -> nat {
    (a * b) % (FIELD_MODULUS as nat)
}

/// Reduction is the identity below the modulus.
pub proof fn lemma_freduce_small(a: nat)
    requires
        a < FIELD_MODULUS,
    ensures
        freduce(a) == a,
{
    vstd::arithmetic::div_mod::lemma_small_mod(a, FIELD_MODULUS as nat);
}

/// Field addition is plain addition when the sum stays below the
/// modulus.
pub proof fn lemma_fadd_small(a: nat, b: nat)
    requires
        a + b < FIELD_MODULUS,
    ensures
        fadd(a, b) == a + b,
{
    vstd::arithmetic::div_mod::lemma_small_mod((a + b) as nat, FIELD_MODULUS as nat);
}

/// Field multiplication is plain multiplication when the product stays
/// below the modulus.
pub proof fn lemma_fmul_small(a: nat, b: nat)
    requires
        a * b < FIELD_MODULUS,
    ensures
        fmul(a, b) == a * b,
{
    vstd::arithmetic::div_mod::lemma_small_mod((a * b) as nat, FIELD_MODULUS as nat);
}

/// The mathematical values of a sequence of field elements.
pub open spec fn row_vals(s: Seq<Felt>) -> Seq<nat> {
    s.map_values(|f: Felt| f@)
}

/// A field element, kept in canonical form (strictly below the modulus)
/// by every constructor and operation of this module.
#[derive(Clone, Copy, Debug, PartialEq, Eq, Structural)]
pub struct Felt {
    v: u64,
}

impl View for Felt {
    type V = nat;

    closed spec fn view(&self) -> nat {
        self.v as nat
    }
}

impl Felt {
    /// The additive identity.
    pub fn zero() -> (r: Felt)
        ensures
            r@ == 0,
    {
        Felt { v: 0 }
    }

    /// The multiplicative identity.
    pub fn one() -> (r: Felt)
        ensures
            r@ == 1,
    {
        Felt { v: 1 }
    }

    /// Embeds a byte; bytes never wrap in this field.
    pub fn from_u8(x: u8) -> (r: Felt)
        ensures
            r@ == x,
    {
        Felt { v: x as u64 }
    }

    /// Embeds a 32-bit word value; such values never wrap in this field.
    pub fn from_u32(x: u32) -> (r: Felt)
        ensures
            r@ == x,
    {
        Felt { v: x as u64 }
    }

    /// Embeds an arbitrary 64-bit value, reducing it into the field.
    pub fn from_u64(x: u64) -> (r: Felt)
        ensures
            r@ == freduce(x as nat),
    {
        Felt { v: x % FIELD_MODULUS }
    }

    /// The canonical representative as a machine integer.
    pub fn as_u64(&self) -> (r: u64)
        ensures
            r == self@,
    {
        self.v
    }

    /// Field addition.
    pub fn add(&self, other: &Felt) -> (r: Felt)
        ensures
            r@ == fadd(self@, other@),
            r@ < FIELD_MODULUS,
    {
        let s: u128 = self.v as u128 + other.v as u128;
        let m: u128 = FIELD_MODULUS as u128;
        let r: u128 = s % m;
        Felt { v: r as u64 }
    }

    /// Field multiplication.
    pub fn mul(&self, other: &Felt) -> (r: Felt)
        ensures
            r@ == fmul(self@, other@),
            r@ < FIELD_MODULUS,
    {
        proof {
            vstd::arithmetic::mul::lemma_mul_upper_bound(
                self.v as int,
                u64::MAX as int,
                other.v as int,
                u64::MAX as int,
            );
        }
        let p: u128 = self.v as u128 * other.v as u128;
        let m: u128 = FIELD_MODULUS as u128;
        let r: u128 = p % m;
        Felt { v: r as u64 }
    }

    /// Equality of the residues the two elements represent.
    pub fn eq_mod(&self, other: &Felt) -> (r: bool)
        ensures
            r == (freduce(self@) == freduce(other@)),
    {
        self.v % FIELD_MODULUS == other.v % FIELD_MODULUS
    }
}

} // verus!
