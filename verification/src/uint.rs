//! Unsigned 256-bit amounts, held as four 64-bit words.

use vstd::prelude::*;
use crate::codec::decimal_value;
use crate::error::WalletError;

verus! {

/// Two to the power 64: the weight of the second word.
pub open spec fn word_base() -> nat {
    0x1_0000_0000_0000_0000
}

/// Two to the power 256: the first number that no amount can hold.
pub open spec fn amount_limit() -> nat {
    word_base() * word_base() * word_base() * word_base()
}

/// Whether `c` is one of the ten decimal digits.
pub open spec fn is_decimal_digit(c: char) -> bool {
    '0' <= c && c <= '9'
}

/// Whether every character of `s` is a decimal digit. The empty text counts.
pub open spec fn is_decimal(s: Seq<char>) -> bool {
    forall|i: int| 0 <= i < s.len() ==> is_decimal_digit(#[trigger] s[i])
}

/// Whether `s` writes an amount: decimal digits only, and a number below two
/// to the power 256.
pub open spec fn is_amount_text(s: Seq<char>) -> bool {
    is_decimal(s) && decimal_value(s) < amount_limit()
}

/// An unsigned 256-bit integer. `w0` is the least significant word.
#[derive(Clone, Copy, Debug, PartialEq, Eq, Structural)]
pub struct U256 {
    pub w0: u64,
    pub w1: u64,
    pub w2: u64,
    pub w3: u64,
}

/// The outside parser [`ethereum_types::U256::from_dec_str`], with its result
/// moved word by word into [`U256`].
///
/// Believed, not proved: the parser reads the text byte by byte, refuses any
/// byte that is not a decimal digit, multiplies by ten and adds, and refuses
/// a number that leaves 256 bits. So it accepts exactly the texts of decimal
/// digits (the empty one too, as zero) whose number is below two to the 256,
/// and returns that number.
#[verifier::external_body]
fn parse_decimal(s: &str) -> (r: Option<U256>)
    ensures
        r.is_some() == (is_decimal(s@) && decimal_value(s@) < amount_limit()),
        r.is_some() ==> r.unwrap().value() == decimal_value(s@),
{
    match ethereum_types::U256::from_dec_str(s) {
        Ok(v) => Some(U256 { w0: v.0[0], w1: v.0[1], w2: v.0[2], w3: v.0[3] }),
        Err(_) => None,
    }
}

impl U256 {
    /// The number that the four words stand for.
    pub open spec fn value(&self) -> nat {
        self.w0 as nat + self.w1 as nat * word_base() + self.w2 as nat * word_base()
            * word_base() + self.w3 as nat * word_base() * word_base() * word_base()
    }

    /// The amount zero.
    pub fn zero() -> (r: U256)
        ensures
            r.value() == 0,
            r == (U256 { w0: 0, w1: 0, w2: 0, w3: 0 }),
    {
        U256 { w0: 0, w1: 0, w2: 0, w3: 0 }
    }

    /// The amount `v`.
    pub fn from_u64(v: u64) -> (r: U256)
        ensures
            r.value() == v,
            r == (U256 { w0: v, w1: 0, w2: 0, w3: 0 }),
    {
        U256 { w0: v, w1: 0, w2: 0, w3: 0 }
    }

    /// Whether the amount is zero.
    pub fn is_zero(&self) -> (r: bool)
        ensures
            r == (self.value() == 0),
    {
        proof {
            lemma_value_zero(*self);
        }
        self.w0 == 0 && self.w1 == 0 && self.w2 == 0 && self.w3 == 0
    }

    /// Reads an amount written in decimal digits.
    ///
    /// The text is accepted when it holds nothing but decimal digits and its
    /// number is below two to the power 256. No sign, no blank and no
    /// separator is accepted; the empty text is read as zero.
    pub fn from_dec_str(s: &str) -> (r: Result<U256, WalletError>)
        ensures
            r.is_ok() <==> is_amount_text(s@),
            r matches Ok(v) ==> v.value() == decimal_value(s@),
            r matches Err(e) ==> e == WalletError::InvalidAmount,
    {
        match parse_decimal(s) {
            Some(v) => Ok(v),
            None => Err(WalletError::InvalidAmount),
        }
    }
}

/// An amount is zero exactly when its four words are.
pub proof fn lemma_value_zero(a: U256)
    ensures
        a.value() == 0 <==> (a.w0 == 0 && a.w1 == 0 && a.w2 == 0 && a.w3 == 0),
{
    let b = word_base();
    assert(a.w1 > 0 ==> a.w1 as nat * b > 0) by (nonlinear_arith)
        requires
            b > 0,
    ;
    assert(a.w2 > 0 ==> a.w2 as nat * b * b > 0) by (nonlinear_arith)
        requires
            b > 0,
    ;
    assert(a.w3 > 0 ==> a.w3 as nat * b * b * b > 0) by (nonlinear_arith)
        requires
            b > 0,
    ;
    assert(a.w1 as nat * b >= 0 && a.w2 as nat * b * b >= 0 && a.w3 as nat * b * b * b >= 0)
        by (nonlinear_arith);
}

proof fn lemma_split_word(low: nat, high: nat, other_low: nat, other_high: nat, base: nat)
    requires
        base > 0,
        low < base,
        other_low < base,
        low + base * high == other_low + base * other_high,
    ensures
        low == other_low,
        high == other_high,
{
    if high > other_high {
        assert(base * high >= base * other_high + base) by (nonlinear_arith)
            requires
                high >= other_high + 1,
                base > 0,
        ;
    } else if other_high > high {
        assert(base * other_high >= base * high + base) by (nonlinear_arith)
            requires
                other_high >= high + 1,
                base > 0,
        ;
    }
}

/// An amount is known by its number: two amounts that stand for the same
/// number have the same words.
pub proof fn lemma_value_injective(a: U256, b: U256)
    requires
        a.value() == b.value(),
    ensures
        a == b,
{
    let base = word_base();
    let a1 = a.w1 as nat + base * (a.w2 as nat + base * (a.w3 as nat));
    let b1 = b.w1 as nat + base * (b.w2 as nat + base * (b.w3 as nat));
    assert(a.value() == a.w0 as nat + base * a1) by (nonlinear_arith)
        requires
            a.value() == a.w0 as nat + a.w1 as nat * base + a.w2 as nat * base * base + a.w3 as nat
                * base * base * base,
            a1 == a.w1 as nat + base * (a.w2 as nat + base * (a.w3 as nat)),
    ;
    assert(b.value() == b.w0 as nat + base * b1) by (nonlinear_arith)
        requires
            b.value() == b.w0 as nat + b.w1 as nat * base + b.w2 as nat * base * base + b.w3 as nat
                * base * base * base,
            b1 == b.w1 as nat + base * (b.w2 as nat + base * (b.w3 as nat)),
    ;
    lemma_split_word(a.w0 as nat, a1, b.w0 as nat, b1, base);
    let a2 = a.w2 as nat + base * (a.w3 as nat);
    let b2 = b.w2 as nat + base * (b.w3 as nat);
    lemma_split_word(a.w1 as nat, a2, b.w1 as nat, b2, base);
    lemma_split_word(a.w2 as nat, a.w3 as nat, b.w2 as nat, b.w3 as nat, base);
}

} // verus!
