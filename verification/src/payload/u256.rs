//! 256-bit unsigned integers, as fees are counted.
use vstd::prelude::*;

verus! {

/// Two to the power of 256.
pub open spec fn modulus() -> nat {
    0x1_0000_0000_0000_0000_0000_0000_0000_0000_0000_0000_0000_0000_0000_0000_0000_0000nat
}

/// A 256-bit unsigned integer, as four words, the least significant first.
#[derive(Clone, Copy, Debug, PartialEq, Eq, Structural)]
pub struct U256 {
    pub w0: u64,
    pub w1: u64,
    pub w2: u64,
    pub w3: u64,
}

impl View for U256 {
    type V = nat;

    open spec fn view(&self) -> nat {
        (self.w0 + 0x1_0000_0000_0000_0000 * self.w1
            + 0x1_0000_0000_0000_0000_0000_0000_0000_0000int * self.w2
            + 0x1_0000_0000_0000_0000_0000_0000_0000_0000_0000_0000_0000_0000int
            * self.w3) as nat
    }
}

/// Adds by `alloy_primitives::U256`'s `+`, which wraps around: the sum modulo two
/// to the power of 256.
#[verifier::external_body]
fn wrapping_sum(a: U256, b: U256) -> (sum: U256)
    ensures
        sum@ == (a@ + b@) % modulus(),
{
    let left = alloy_primitives::U256::from_limbs([a.w0, a.w1, a.w2, a.w3]);
    let right = alloy_primitives::U256::from_limbs([b.w0, b.w1, b.w2, b.w3]);
    let [w0, w1, w2, w3] = (left + right).into_limbs();
    U256 { w0, w1, w2, w3 }
}

/// Multiplies by `alloy_primitives::U256`'s `*`, which wraps around: the product
/// modulo two to the power of 256.
#[verifier::external_body]
fn wrapping_product(a: U256, b: U256) -> (product: U256)
    ensures
        product@ == (a@ * b@) % modulus(),
{
    let left = alloy_primitives::U256::from_limbs([a.w0, a.w1, a.w2, a.w3]);
    let right = alloy_primitives::U256::from_limbs([b.w0, b.w1, b.w2, b.w3]);
    let [w0, w1, w2, w3] = (left * right).into_limbs();
    U256 { w0, w1, w2, w3 }
}

impl U256 {
    /// Zero.
    pub fn zero() -> (n: U256)
        ensures
            n@ == 0,
    {
        U256 { w0: 0, w1: 0, w2: 0, w3: 0 }
    }

    /// The number `n`.
    pub fn from_u128(n: u128) -> (wide: U256)
        ensures
            wide@ == n,
    {
        let low: u64 = (n % 0x1_0000_0000_0000_0000) as u64;
        let high: u64 = (n / 0x1_0000_0000_0000_0000) as u64;
        U256 { w0: low, w1: high, w2: 0, w3: 0 }
    }

    /// The number `n`.
    pub fn from_u64(n: u64) -> (wide: U256)
        ensures
            wide@ == n,
    {
        U256 { w0: n, w1: 0, w2: 0, w3: 0 }
    }

    /// The sum, modulo two to the power of 256.
    pub fn wrapping_add(self, other: U256) -> (sum: U256)
        ensures
            sum@ == (self@ + other@) % modulus(),
    {
        wrapping_sum(self, other)
    }

    /// The product, modulo two to the power of 256.
    pub fn wrapping_mul(self, other: U256) -> (product: U256)
        ensures
            product@ == (self@ * other@) % modulus(),
    {
        wrapping_product(self, other)
    }

    /// Whether this number is greater than `other`.
    pub fn exceeds(self, other: U256) -> (greater: bool)
        ensures
            greater == (self@ > other@),
    {
        if self.w3 != other.w3 {
            self.w3 > other.w3
        } else if self.w2 != other.w2 {
            self.w2 > other.w2
        } else if self.w1 != other.w1 {
            self.w1 > other.w1
        } else {
            self.w0 > other.w0
        }
    }
}

/// Four words count below two to the power of 256, and equal numbers have equal words.
pub proof fn law_words_are_a_number(a: U256, b: U256)
    ensures
        a@ < modulus(),
        a@ == b@ ==> a == b,
{
    if a.w3 > b.w3 {
        assert(a@ > b@);
    } else if a.w3 < b.w3 {
        assert(a@ < b@);
    } else if a.w2 > b.w2 {
        assert(a@ > b@);
    } else if a.w2 < b.w2 {
        assert(a@ < b@);
    } else if a.w1 > b.w1 {
        assert(a@ > b@);
    } else if a.w1 < b.w1 {
        assert(a@ < b@);
    }
}

} // verus!
