//! Facts about proportional shares of integer amounts.

use vstd::prelude::*;
use vstd::arithmetic::div_mod::{lemma_div_by_multiple, lemma_div_is_ordered};
use vstd::arithmetic::mul::lemma_mul_inequality;

verus! {

/// `floor(amount * part / whole)`: the share of `amount` that `part` of
/// `whole` stands for, rounded down; zero when `whole` is zero.
pub open spec fn share_of(amount: int, part: int, whole: int) -> int {
    if whole == 0 {
        0
    } else {
        amount * part / whole
    }
}

/// A share of a part is at most the whole amount, and never negative.
pub proof fn lemma_share_bounded(amount: int, part: int, whole: int)
    requires
        0 <= amount,
        0 <= part <= whole,
    ensures
        0 <= share_of(amount, part, whole) <= amount,
{
    if whole > 0 {
        lemma_mul_inequality(part, whole, amount);
        lemma_mul_inequality(0, part, amount);
        assert(part * amount == amount * part) by (nonlinear_arith);
        assert(whole * amount == amount * whole) by (nonlinear_arith);
        lemma_div_is_ordered(amount * part, amount * whole, whole);
        lemma_div_is_ordered(0, amount * part, whole);
        lemma_div_by_multiple(amount, whole);
    }
}

/// Of an amount no larger than the whole, the share of a part is at most
/// that part, and what is left for the rest is at most the rest.
pub proof fn lemma_share_within_parts(amount: int, part: int, rest: int)
    requires
        0 <= part,
        0 <= rest,
        0 <= amount <= part + rest,
    ensures
        share_of(amount, part, part + rest) <= part,
        amount - share_of(amount, part, part + rest) <= rest,
{
    let whole = part + rest;
    if whole > 0 {
        lemma_mul_inequality(amount, whole, part);
        assert(amount * part == part * amount) by (nonlinear_arith);
        assert(whole * part == part * whole) by (nonlinear_arith);
        lemma_div_is_ordered(amount * part, part * whole, whole);
        lemma_div_by_multiple(part, whole);
        // amount * part >= whole * (amount - rest)
        assert(amount * part >= whole * (amount - rest)) by (nonlinear_arith)
            requires
                whole == part + rest,
                amount <= whole,
                0 <= rest,
        ;
        if amount - rest >= 0 {
            lemma_div_is_ordered(whole * (amount - rest), amount * part, whole);
            assert(whole * (amount - rest) == (amount - rest) * whole) by (nonlinear_arith);
            lemma_div_by_multiple(amount - rest, whole);
        } else {
            lemma_share_bounded(amount, part, whole);
        }
    } else {
        assert(amount == 0);
    }
}

} // verus!
