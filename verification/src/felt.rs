//! Field elements: integers modulo the prime 2^251 + 17 * 2^192 + 1.
//!
//! A value is held as two 128-bit limbs, `hi * 2^128 + lo`, kept below the
//! prime by a type invariant. Addition reduces modulo the prime.

use vstd::prelude::*;

verus! {

/// High 128 bits of the prime: 2^123 + 17 * 2^64.
pub const PRIME_HI: u128 = 0x8000000000000110000000000000000;

/// Low 128 bits of the prime.
pub const PRIME_LO: u128 = 1;

/// The prime modulus, 2^251 + 17 * 2^192 + 1.
pub open spec fn prime() -> nat {
    0x800000000000011000000000000000000000000000000000000000000000001nat
}

/// The numeric value of a two-limb representation.
pub open spec fn limbs_val(hi: u128, lo: u128) -> nat {
    (hi as nat) * 0x100000000000000000000000000000000nat + (lo as nat)
}

/// A field element, always reduced modulo the prime.
#[derive(Clone, Copy, Debug, PartialEq, Eq, Structural)]
pub struct Felt {
    hi: u128,
    lo: u128,
}

impl Felt {
    /// The mathematical value of this field element.
    pub closed spec fn val(&self) -> nat {
        limbs_val(self.hi, self.lo)
    }

    #[verifier::type_invariant]
    pub open spec fn inv(&self) -> bool {
        self.val() < prime()
    }

    /// The zero element.
    pub fn zero() -> (r: Felt)
        ensures
            r.val() == 0,
    {
        Felt { hi: 0, lo: 0 }
    }

    /// Embed a machine integer into the field.
    pub fn from_u64(x: u64) -> (r: Felt)
        ensures
            r.val() == x,
    {
        Felt { hi: 0, lo: x as u128 }
    }

    /// Build a field element from its two 128-bit limbs; rejects values
    /// at or above the prime.
    pub fn from_limbs(hi: u128, lo: u128) -> (r: Option<Felt>)
        ensures
            r is Some <==> limbs_val(hi, lo) < prime(),
            r matches Some(f) ==> f.val() == limbs_val(hi, lo),
    {
        if hi < PRIME_HI || (hi == PRIME_HI && lo < PRIME_LO) {
            proof {
                lemma_limb_order(hi, lo);
            }
            Some(Felt { hi, lo })
        } else {
            proof {
                lemma_limb_order(hi, lo);
            }
            None
        }
    }

    /// The two 128-bit limbs of the reduced representation.
    pub fn limbs(&self) -> (r: (u128, u128))
        ensures
            limbs_val(r.0, r.1) == self.val(),
            limbs_val(r.0, r.1) < prime(),
    {
        proof {
            use_type_invariant(&self);
        }
        (self.hi, self.lo)
    }

    /// The value as a machine integer, when it fits.
    pub fn to_usize(&self) -> (r: Option<usize>)
        ensures
            self.val() <= usize::MAX ==> r == Some(self.val() as usize),
            self.val() > usize::MAX ==> r is None,
    {
        proof {
            use_type_invariant(&self);
            if self.hi >= 1 {
                assert((self.hi as nat) * 0x100000000000000000000000000000000nat
                    >= 0x100000000000000000000000000000000nat) by (nonlinear_arith)
                    requires self.hi >= 1;
            }
        }
        if self.hi == 0 && self.lo <= usize::MAX as u128 {
            Some(self.lo as usize)
        } else {
            None
        }
    }

    /// Addition modulo the prime.
    pub fn add(self, other: Felt) -> (r: Felt)
        ensures
            r.val() == (self.val() + other.val()) % prime(),
    {
        proof {
            use_type_invariant(&self);
            use_type_invariant(&other);
            lemma_hi_bounded(self.hi, self.lo);
            lemma_hi_bounded(other.hi, other.lo);
        }
        let (lo, carry): (u128, u128) = if self.lo <= u128::MAX - other.lo {
            (self.lo + other.lo, 0)
        } else {
            ((self.lo - (u128::MAX - other.lo)) - 1, 1)
        };
        let hi: u128 = self.hi + other.hi + carry;
        assert(limbs_val(hi, lo) == self.val() + other.val());
        if hi > PRIME_HI || (hi == PRIME_HI && lo >= PRIME_LO) {
            proof {
                lemma_limb_order(hi, lo);
            }
            let (lo2, hi2): (u128, u128) = if lo >= PRIME_LO {
                (lo - PRIME_LO, hi - PRIME_HI)
            } else {
                ((u128::MAX - (PRIME_LO - lo)) + 1, (hi - PRIME_HI) - 1)
            };
            assert(limbs_val(hi2, lo2) == limbs_val(hi, lo) - prime());
            proof {
                lemma_mod_of_reduced(limbs_val(hi2, lo2), self.val() + other.val());
            }
            Felt { hi: hi2, lo: lo2 }
        } else {
            proof {
                lemma_limb_order(hi, lo);
                lemma_mod_of_reduced(limbs_val(hi, lo), self.val() + other.val());
            }
            Felt { hi, lo }
        }
    }
}

/// Structural equality of field elements coincides with equality of their
/// mathematical values: the reduced two-limb representation is unique.
pub proof fn lemma_felt_eq(a: Felt, b: Felt)
    ensures
        (a == b) <==> (a.val() == b.val()),
{
    if a.val() == b.val() && a != b {
        vstd::arithmetic::div_mod::lemma_fundamental_div_mod_converse_div(
            a.val() as int, 0x100000000000000000000000000000000int, a.hi as int, a.lo as int);
        vstd::arithmetic::div_mod::lemma_fundamental_div_mod_converse_div(
            b.val() as int, 0x100000000000000000000000000000000int, b.hi as int, b.lo as int);
        vstd::arithmetic::div_mod::lemma_fundamental_div_mod_converse_mod(
            a.val() as int, 0x100000000000000000000000000000000int, a.hi as int, a.lo as int);
        vstd::arithmetic::div_mod::lemma_fundamental_div_mod_converse_mod(
            b.val() as int, 0x100000000000000000000000000000000int, b.hi as int, b.lo as int);
        assert(false);
    }
}

/// A reduced representation's high limb never exceeds the prime's high limb.
proof fn lemma_hi_bounded(hi: u128, lo: u128)
    requires
        limbs_val(hi, lo) < prime(),
    ensures
        hi <= PRIME_HI,
{
    if hi > PRIME_HI {
        assert((hi as nat) * 0x100000000000000000000000000000000nat
            >= (PRIME_HI + 1) as nat * 0x100000000000000000000000000000000nat) by (nonlinear_arith)
            requires hi >= PRIME_HI + 1;
        assert(false);
    }
}

/// Lexicographic limb comparison agrees with numeric comparison against
/// the prime.
proof fn lemma_limb_order(hi: u128, lo: u128)
    ensures
        (hi > PRIME_HI || (hi == PRIME_HI && lo >= PRIME_LO)) <==> limbs_val(hi, lo) >= prime(),
{
    if hi > PRIME_HI {
        assert((hi as nat) * 0x100000000000000000000000000000000nat
            >= (PRIME_HI + 1) as nat * 0x100000000000000000000000000000000nat) by (nonlinear_arith)
            requires hi >= PRIME_HI + 1;
    }
    if hi < PRIME_HI {
        assert((hi as nat) * 0x100000000000000000000000000000000nat
            <= (PRIME_HI - 1) as nat * 0x100000000000000000000000000000000nat) by (nonlinear_arith)
            requires hi <= PRIME_HI - 1;
    }
}

/// A value already below the prime is its own remainder after one
/// subtraction of the prime is accounted for.
proof fn lemma_mod_of_reduced(r: nat, total: nat)
    requires
        r < prime(),
        r == total || r + prime() == total,
    ensures
        r == total % prime(),
{
    if r == total {
        vstd::arithmetic::div_mod::lemma_small_mod(r, prime());
    } else {
        vstd::arithmetic::div_mod::lemma_mod_multiples_vanish(1, r as int, prime() as int);
        vstd::arithmetic::div_mod::lemma_small_mod(r, prime());
    }
}

} // verus!
