//! Amounts of bytes as the user reads them: in tenths of a GiB. An amount is
//! worked out with 53 significant bits, and every rounding goes to the nearest
//! value, a tie to the even one.
use vstd::arithmetic::div_mod::lemma_div_is_ordered_by_denominator;
use vstd::arithmetic::div_mod::lemma_fundamental_div_mod;
use vstd::prelude::*;

use crate::text;
use crate::text::push_decimal;

verus! {

/// A GiB in bytes.
pub const GIB: u128 = 1_073_741_824;

/// The first amount that takes more than 53 bits.
pub const PRECISE: u64 = 9_007_199_254_740_992;

/// The whole number nearest to a fraction, of two the even one.
pub open spec fn nearest(number: nat, parts: nat) -> nat {
    let whole = number / parts;
    let rest = number % parts;
    if rest * 2 > parts || (rest * 2 == parts && whole % 2 == 1) {
        whole + 1
    } else {
        whole
    }
}

/// The power of two that is the last of an amount's 53 significant bits.
pub open spec fn grain(amount: nat) -> nat
    decreases amount,
{
    if amount < PRECISE {
        1
    } else {
        2 * grain(amount / 2)
    }
}

/// The amount with 53 significant bits.
pub open spec fn significant(amount: nat) -> nat {
    nearest(amount, grain(amount)) * grain(amount)
}

/// The amount in tenths of a GiB.
pub open spec fn gib_tenths(amount: nat) -> nat {
    nearest(significant(amount) * 10, GIB as nat)
}

/// The amount in GiB, with one digit behind the point.
pub open spec fn gib_text(amount: nat) -> Seq<char> {
    text::decimal(gib_tenths(amount) / 10) + "."@ + text::decimal(gib_tenths(amount) % 10)
}

fn nearest_whole(number: u128, parts: u128) -> (whole: u128)
    requires
        0 < parts <= u64::MAX,
        number < u128::MAX,
    ensures
        whole == nearest(number as nat, parts as nat),
        whole <= number / parts + 1,
{
    let whole: u128 = number / parts;
    let rest: u128 = number % parts;
    proof {
        lemma_div_is_ordered_by_denominator(number as int, 1, parts as int);
    }
    if rest * 2 > parts || (rest * 2 == parts && whole % 2 == 1) {
        whole + 1
    } else {
        whole
    }
}

fn last_bit(amount: u64) -> (bit: u64)
    ensures
        bit == grain(amount as nat),
        0 < bit <= 4_096,
{
    let mut rest: u64 = amount;
    let mut bit: u64 = 1;
    while rest >= PRECISE
        invariant
            0 < bit,
            bit * rest <= amount,
            bit == 1 || bit * (PRECISE / 2) <= amount,
            grain(amount as nat) == bit * grain(rest as nat),
        decreases rest,
    {
        let half: u64 = rest / 2;
        assert((bit * 2) * half <= bit * rest) by (nonlinear_arith)
            requires
                0 < bit,
                2 * half <= rest,
        ;
        assert((bit * 2) * (PRECISE / 2) <= (bit * 2) * half) by (nonlinear_arith)
            requires
                0 < bit,
                PRECISE / 2 <= half,
        ;
        assert(bit * (2 * grain(half as nat)) == (bit * 2) * grain(half as nat))
            by (nonlinear_arith);
        rest = half;
        bit = bit * 2;
    }
    assert(bit * 1 == bit);
    assert(bit == 1 || bit <= 4_096) by (nonlinear_arith)
        requires
            bit == 1 || bit * (PRECISE / 2) <= amount,
            PRECISE == 9_007_199_254_740_992,
            amount <= 18_446_744_073_709_551_615,
    ;
    bit
}

/// Writes an amount of bytes in GiB.
pub fn push_gib(out: &mut String, amount: u64)
    ensures
        final(out)@ == old(out)@ + gib_text(amount as nat),
{
    let bit: u128 = last_bit(amount) as u128;
    let kept: u128 = nearest_whole(amount as u128, bit);
    proof {
        lemma_fundamental_div_mod(amount as int, bit as int);
        assert(kept * bit <= bit * (amount as int / bit as int) + bit) by (nonlinear_arith)
            requires
                0 < bit,
                kept <= amount as int / bit as int + 1,
        ;
    }
    let tenths: u128 = nearest_whole(kept * bit * 10, GIB);
    push_decimal(out, (tenths / 10) as u64);
    out.append(".");
    push_decimal(out, (tenths % 10) as u64);
    assert(out@ =~= old(out)@ + gib_text(amount as nat));
}

} // verus!
