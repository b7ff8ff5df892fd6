//! 256-bit unsigned scalars with wrap-around succession.

use vstd::prelude::*;

verus! {

/// Two to the power 64: the weight of one limb.
pub open spec fn limb_base() -> nat {
    0x1_0000_0000_0000_0000
}

/// Two to the power 256: the number of scalars.
pub open spec fn modulus() -> nat {
    0x1_0000_0000_0000_0000nat * 0x1_0000_0000_0000_0000nat * 0x1_0000_0000_0000_0000nat
        * 0x1_0000_0000_0000_0000nat
}

/// The scalar that follows `x` in the cyclic scalar space.
pub open spec fn successor(x: nat) -> nat {
    if x + 1 == modulus() {
        0
    } else {
        x + 1
    }
}

/// The scalar reached from `start` after `steps` successions, for `steps`
/// up to one full turn of the space.
pub open spec fn scalar_at(start: nat, steps: nat) -> nat {
    if start + steps < modulus() {
        start + steps
    } else {
        (start + steps - modulus()) as nat
    }
}

/// A value is split into its lowest limb and the rest in one way only.
pub proof fn lemma_limb_split(lo: int, hi: int, lo_other: int, hi_other: int)
    requires
        0 <= lo < limb_base(),
        0 <= lo_other < limb_base(),
        lo + limb_base() * hi == lo_other + limb_base() * hi_other,
    ensures
        lo == lo_other,
        hi == hi_other,
{
}

/// A 256-bit unsigned integer, held as four 64-bit limbs, least significant
/// first.
#[derive(Clone, Copy, Debug, PartialEq, Eq)]
pub struct Scalar {
    pub limbs: [u64; 4],
}

impl View for Scalar {
    type V = nat;

    open spec fn view(&self) -> nat {
        (self.limbs[0] + limb_base() * (self.limbs[1] + limb_base() * (self.limbs[2] + limb_base()
            * self.limbs[3]))) as nat
    }
}

impl Scalar {
    /// The scalar zero.
    pub fn zero() -> (r: Scalar)
        ensures
            r@ == 0,
    {
        Scalar { limbs: [0, 0, 0, 0] }
    }

    /// The largest scalar, two to the power 256 less one.
    pub fn max_value() -> (r: Scalar)
        ensures
            r@ + 1 == modulus(),
    {
        Scalar {
            limbs: [
                0xffff_ffff_ffff_ffff,
                0xffff_ffff_ffff_ffff,
                0xffff_ffff_ffff_ffff,
                0xffff_ffff_ffff_ffff,
            ],
        }
    }

    /// The scalar whose value is `x`.
    pub fn from_u64(x: u64) -> (r: Scalar)
        ensures
            r@ == x,
    {
        Scalar { limbs: [x, 0, 0, 0] }
    }

    /// Every scalar lies below the modulus.
    pub proof fn lemma_in_range(&self)
        ensures
            self@ < modulus(),
    {
    }

    /// Whether two scalars hold the same value.
    pub fn same(&self, other: &Scalar) -> (r: bool)
        ensures
            r == (self@ == other@),
    {
        proof {
            let b = limb_base() as int;
            let hi2 = self.limbs[2] + b * self.limbs[3];
            let hi2o = other.limbs[2] + b * other.limbs[3];
            let hi1 = self.limbs[1] + b * hi2;
            let hi1o = other.limbs[1] + b * hi2o;
            if self@ == other@ {
                lemma_limb_split(self.limbs[0] as int, hi1, other.limbs[0] as int, hi1o);
                lemma_limb_split(self.limbs[1] as int, hi2, other.limbs[1] as int, hi2o);
                lemma_limb_split(
                    self.limbs[2] as int,
                    self.limbs[3] as int,
                    other.limbs[2] as int,
                    other.limbs[3] as int,
                );
            }
        }
        self.limbs[0] == other.limbs[0] && self.limbs[1] == other.limbs[1] && self.limbs[2]
            == other.limbs[2] && self.limbs[3] == other.limbs[3]
    }

    /// The next scalar, wrapping from the largest value to zero.
    pub fn wrapping_next(&self) -> (r: Scalar)
        ensures
            r@ == successor(self@),
    {
        let l0: u64 = self.limbs[0];
        let l1: u64 = self.limbs[1];
        let l2: u64 = self.limbs[2];
        let l3: u64 = self.limbs[3];
        proof {
            self.lemma_in_range();
        }
        let r = if l0 < u64::MAX {
            Scalar { limbs: [l0 + 1, l1, l2, l3] }
        } else if l1 < u64::MAX {
            Scalar { limbs: [0, l1 + 1, l2, l3] }
        } else if l2 < u64::MAX {
            Scalar { limbs: [0, 0, l2 + 1, l3] }
        } else if l3 < u64::MAX {
            Scalar { limbs: [0, 0, 0, l3 + 1] }
        } else {
            Scalar { limbs: [0, 0, 0, 0] }
        };
        proof {
            r.lemma_in_range();
        }
        r
    }
}


/// Succession stays within the scalars, and from the largest of them it
/// leads to zero.
pub proof fn lemma_successor_wraps(x: nat)
    requires
        x < modulus(),
    ensures
        successor(x) < modulus(),
        x + 1 < modulus() ==> successor(x) == x + 1,
        x + 1 == modulus() ==> successor(x) == 0,
        successor(x) == (x + 1) % modulus(),
{
    if x + 1 < modulus() {
        vstd::arithmetic::div_mod::lemma_small_mod((x + 1) as nat, modulus());
    } else {
        assert((x + 1) % modulus() == 0) by {
            vstd::arithmetic::div_mod::lemma_mod_self_0(modulus() as int);
        }
    }
}

} // verus!
