//! 160-bit account and contract addresses.

use vstd::prelude::*;

verus! {

/// A 160-bit address, held big-endian as three machine words: the top 32 bits,
/// the middle 64 bits and the low 64 bits.
#[derive(Clone, Copy, Debug, PartialEq, Eq, Structural)]
pub struct Address {
    pub high: u32,
    pub middle: u64,
    pub low: u64,
}

/// 2^64, the weight of the middle word.
pub open spec fn word() -> nat {
    0x1_0000_0000_0000_0000nat
}

impl View for Address {
    type V = nat;

    /// The address read as an unsigned 160-bit number.
    open spec fn view(&self) -> nat {
        (self.high as nat) * word() * word() + (self.middle as nat) * word() + (self.low as nat)
    }
}

/// Two addresses are equal exactly when they denote the same number.
pub proof fn lemma_view_injective(a: Address, b: Address)
    ensures
        a@ == b@ <==> a == b,
{
    let w = word() as int;
    let (ah, am, al) = (a.high as int, a.middle as int, a.low as int);
    let (bh, bm, bl) = (b.high as int, b.middle as int, b.low as int);
    if a@ == b@ {
        assert(al == bl && am == bm && ah == bh) by (nonlinear_arith)
            requires
                w == 0x1_0000_0000_0000_0000int,
                0 <= al < w,
                0 <= bl < w,
                0 <= am < w,
                0 <= bm < w,
                0 <= ah,
                0 <= bh,
                ah * w * w + am * w + al == bh * w * w + bm * w + bl,
        {
            assert((ah * w + am) * w + al == (bh * w + bm) * w + bl);
            assert(al == bl && ah * w + am == bh * w + bm);
        }
    }
}

/// The address numbered `a`: its last eight bytes hold `a` big-endian and the
/// twelve before them are zero.
pub fn hash(a: u64) -> (r: Address)
    ensures
        r@ == a as nat,
{
    Address { high: 0, middle: 0, low: a }
}

} // verus!
