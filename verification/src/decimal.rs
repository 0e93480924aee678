//! Commission arithmetic.
//!
//! A share of an amount is computed with `cosmwasm_std`'s fixed-point
//! `Decimal`, which keeps 18 fractional digits. Inside this library a decimal
//! is carried as its atomics: the integer `d` stands for `d / 10^18`.

use vstd::arithmetic::div_mod::{
    lemma_div_is_ordered, lemma_div_multiples_vanish_quotient, lemma_fundamental_div_mod,
};
use vstd::arithmetic::mul::lemma_mul_inequality;
use vstd::prelude::*;

verus! {

/// Atomics of the decimal one.
pub const DECIMAL_FRACTIONAL: u128 = 1_000_000_000_000_000_000;

/// Atomics of the decimal one percent.
pub const PERCENT_FRACTIONAL: u128 = 10_000_000_000_000_000;

/// What is left of `total` once `commision` percent of it are withheld,
/// rounded down to a whole unit.
pub open spec fn after_commission(total: nat, commision: nat) -> nat
    recommends
        commision <= 100,
{
    (total * (100 - commision) / 100) as nat
}

/// `cosmwasm_std::Decimal::percent`: the decimal that stands for `x` percent.
/// Its atomics are `x` times those of one percent, which always fit.
#[verifier::external_body]
fn decimal_percent(x: u64) -> (atomics: u128)
    ensures
        atomics == x * PERCENT_FRACTIONAL,
{
    cosmwasm_std::Decimal::percent(x).atomics().u128()
}

/// Subtraction of two `cosmwasm_std::Decimal`s, which subtracts their atomics
/// and panics when the result would be negative.
#[verifier::external_body]
fn decimal_sub(a: u128, b: u128) -> (atomics: u128)
    requires
        b <= a,
    ensures
        atomics == a - b,
{
    (cosmwasm_std::Decimal::raw(a) - cosmwasm_std::Decimal::raw(b)).atomics().u128()
}

/// `cosmwasm_std::Uint128` times `cosmwasm_std::Decimal`: the product of the
/// amount and the decimal, rounded down to a whole number. It is computed in
/// 256 bits and panics when the rounded product does not fit in 128 bits.
#[verifier::external_body]
fn uint128_mul_decimal(amount: u128, atomics: u128) -> (product: u128)
    requires
        amount * atomics / (DECIMAL_FRACTIONAL as int) <= u128::MAX,
    ensures
        product == amount * atomics / (DECIMAL_FRACTIONAL as int),
{
    (cosmwasm_std::Uint128::new(amount) * cosmwasm_std::Decimal::raw(atomics)).u128()
}

/// Scaling numerator and denominator of the share by the atomics of one
/// percent does not change the rounded product.
proof fn lemma_percent_scale(total: nat, kept: nat)
    ensures
        total * (kept * PERCENT_FRACTIONAL) / (DECIMAL_FRACTIONAL as int) == total * kept / 100,
{
    let p = PERCENT_FRACTIONAL as int;
    assert(DECIMAL_FRACTIONAL as int == p * 100);
    assert(total * (kept * p) == p * (total * kept)) by (nonlinear_arith);
    assert(0 <= total * kept) by (nonlinear_arith);
    lemma_div_multiples_vanish_quotient(p, (total * kept) as int, 100);
}

/// The amount paid back to a bidder whose deposits add up to `total`, when
/// `commision` percent are withheld.
pub fn refund(total: u128, commision: u64) -> (funds: u128)
    requires
        commision <= 100,
    ensures
        funds == after_commission(total as nat, commision as nat),
        funds <= total,
{
    let comm: u128 = decimal_sub(decimal_percent(100), decimal_percent(commision));
    proof {
        let kept = (100 - commision) as nat;
        lemma_percent_scale(total as nat, kept);
        assert(total * kept <= total * 100) by (nonlinear_arith)
            requires
                kept <= 100,
        ;
        lemma_div_is_ordered((total * kept) as int, (total * 100) as int, 100);
        assert((total * 100) / 100 == total) by (nonlinear_arith);
    }
    uint128_mul_decimal(total, comm)
}

/// A larger total is never refunded less.
pub proof fn lemma_refund_monotonic_in_total(smaller: nat, larger: nat, commision: nat)
    requires
        smaller <= larger,
        commision <= 100,
    ensures
        after_commission(smaller, commision) <= after_commission(larger, commision),
{
    lemma_mul_inequality(smaller as int, larger as int, 100 - commision);
    lemma_div_is_ordered(smaller * (100 - commision), larger * (100 - commision), 100);
}

/// A higher commission never refunds more, and it refunds strictly less
/// exactly when the additional amount withheld, in hundredths of a unit,
/// exceeds the hundredths that rounding already dropped at the lower rate.
pub proof fn lemma_refund_decreasing_in_commission(total: nat, lower: nat, higher: nat)
    requires
        lower <= higher <= 100,
    ensures
        after_commission(total, higher) <= after_commission(total, lower),
        after_commission(total, higher) < after_commission(total, lower) <==> total * (higher
            - lower) > (total * (100 - lower)) % 100,
{
    let a = total * (100 - lower);
    let b = total * (100 - higher);
    assert(a - b == total * (higher - lower)) by (nonlinear_arith)
        requires
            a == total * (100 - lower),
            b == total * (100 - higher),
    ;
    assert(0 <= b <= a) by (nonlinear_arith)
        requires
            a == total * (100 - lower),
            b == total * (100 - higher),
            lower <= higher <= 100,
    ;
    lemma_fundamental_div_mod(a, 100);
    lemma_fundamental_div_mod(b, 100);
}

/// A higher commission refunds strictly less wherever rounding does not
/// hide the difference: the additional amount withheld, in hundredths of a
/// unit, must exceed the hundredths that rounding already dropped at the
/// lower rate. Where it does not, the two refunds are equal: of a total of
/// one, nothing is paid back at one percent and nothing at two.
pub proof fn lemma_refund_strictly_decreasing_in_commission(total: nat, lower: nat, higher: nat)
    requires
        lower < higher <= 100,
        total * (higher - lower) > (total * (100 - lower)) % 100,
    ensures
        after_commission(total, higher) < after_commission(total, lower),
{
    lemma_refund_decreasing_in_commission(total, lower, higher);
}

} // verus!
