//! 256-bit unsigned quantities (difficulties, gas amounts) as four
//! little-endian 64-bit words.

use vstd::prelude::*;

verus! {

/// Two to the power of 64.
pub open spec fn word_base() -> nat {
    0x1_0000_0000_0000_0000nat
}

/// A 256-bit unsigned integer, least significant word first.
#[derive(Clone, Copy, Debug, PartialEq, Eq)]
pub struct U256 {
    pub words: [u64; 4],
}

impl U256 {
    /// The number this value stands for.
    pub open spec fn value(self) -> nat {
        self.words[0] as nat + word_base() * (self.words[1] as nat + word_base() * (
        self.words[2] as nat + word_base() * (self.words[3] as nat)))
    }

    /// The first number that does not fit in 256 bits.
    pub open spec fn modulus() -> nat {
        word_base() * word_base() * word_base() * word_base()
    }

    pub fn zero() -> (r: U256)
        ensures
            r.value() == 0,
    {
        U256 { words: [0, 0, 0, 0] }
    }

    pub fn from_u64(n: u64) -> (r: U256)
        ensures
            r.value() == n,
    {
        U256 { words: [n, 0, 0, 0] }
    }

    /// Adds two quantities; `None` when the sum does not fit in 256 bits.
    pub fn checked_add(&self, other: &U256) -> (r: Option<U256>)
        ensures
            r matches Some(s) ==> s.value() == self.value() + other.value(),
            r is None <==> self.value() + other.value() >= U256::modulus(),
    {
        add_words(self, other)
    }
}

/// Relies on `ethereum_types::U256::checked_add`, which returns the sum of two
/// little-endian word arrays, or `None` when the addition overflows 256 bits.
#[verifier::external_body]
fn add_words(a: &U256, b: &U256) -> (r: Option<U256>)
    ensures
        r matches Some(s) ==> s.value() == a.value() + b.value(),
        r is None <==> a.value() + b.value() >= U256::modulus(),
{
    ethereum_types::U256(a.words).checked_add(ethereum_types::U256(b.words)).map(|s| U256 { words: s.0 })
}

/// A number below the base and a multiple of the base add up uniquely.
proof fn lemma_digit_split(x0: int, x: int, y0: int, y: int)
    requires
        0 <= x0 < word_base(),
        0 <= y0 < word_base(),
        0 <= x,
        0 <= y,
        x0 + word_base() * x == y0 + word_base() * y,
    ensures
        x0 == y0,
        x == y,
{
    let b = word_base() as int;
    assert(x0 == y0 && x == y) by (nonlinear_arith)
        requires
            0 <= x0 < b,
            0 <= y0 < b,
            0 <= x,
            0 <= y,
            x0 + b * x == y0 + b * y,
    ;
}

/// Distinct word arrays stand for distinct numbers.
pub proof fn lemma_value_injective(a: U256, b: U256)
    requires
        a.value() == b.value(),
    ensures
        a == b,
{
    let bs = word_base() as int;
    assert(0 <= bs * (a.words[3] as int)) by (nonlinear_arith) requires 0 <= bs, 0 <= a.words[3];
    assert(0 <= bs * (b.words[3] as int)) by (nonlinear_arith) requires 0 <= bs, 0 <= b.words[3];
    let a2 = a.words[2] as int + bs * (a.words[3] as int);
    let b2 = b.words[2] as int + bs * (b.words[3] as int);
    assert(0 <= bs * a2) by (nonlinear_arith) requires 0 <= bs, 0 <= a2;
    assert(0 <= bs * b2) by (nonlinear_arith) requires 0 <= bs, 0 <= b2;
    let a1 = a.words[1] as int + bs * a2;
    let b1 = b.words[1] as int + bs * b2;
    lemma_digit_split(a.words[0] as int, a1, b.words[0] as int, b1);
    lemma_digit_split(a.words[1] as int, a2, b.words[1] as int, b2);
    lemma_digit_split(a.words[2] as int, a.words[3] as int, b.words[2] as int, b.words[3] as int);
    assert(a.words =~= b.words);
}

} // verus!
