//! The proportional controller that decides how many tokens are dispensed.
use vstd::prelude::*;

verus! {

/// The payout before clamping, as an integer.
///
/// Above the target floor the payout is `base + (k * surplus) / precision`;
/// at or below it the payout is `base - (k * deficit) / precision`, and never
/// less than zero.
pub open spec fn raw_payout(balance: int, target_floor: int, base: int, k_scaled: int, precision: int) -> int {
    if balance > target_floor {
        base + (k_scaled * (balance - target_floor)) / precision
    } else {
        let reduction = (k_scaled * (target_floor - balance)) / precision;
        if reduction > base { 0 } else { base - reduction }
    }
}

/// `value` limited to at most `hi`, then raised to at least `lo`.
pub open spec fn clamp(value: int, lo: int, hi: int) -> int {
    let capped = if value < hi { value } else { hi };
    if lo > capped { lo } else { capped }
}

/// The payout the controller grants (for a nonzero precision).
pub open spec fn faucet_payout(
    balance: u64,
    target_floor: u64,
    base: u64,
    k_scaled: u64,
    precision: u128,
    min_payout: u64,
    max_payout: u64,
) -> int {
    clamp(
        raw_payout(balance as int, target_floor as int, base as int, k_scaled as int, precision as int),
        min_payout as int,
        max_payout as int,
    )
}

proof fn lemma_product_bound(a: u64, b: u128)
    requires
        b <= u64::MAX,
    ensures
        0 <= (a as int) * (b as int) <= (u64::MAX as int) * (u64::MAX as int),
{
    assert(0 <= (a as int) * (b as int) <= (u64::MAX as int) * (u64::MAX as int)) by (nonlinear_arith)
        requires
            a <= u64::MAX,
            b <= u64::MAX,
    ;
}

proof fn lemma_quotient_bound(n: int, d: int)
    requires
        0 <= n,
        0 < d,
    ensures
        0 <= n / d <= n,
{
    assert(0 <= n / d <= n) by (nonlinear_arith)
        requires
            0 <= n,
            0 < d,
    ;
}

/// The clamped payout always fits in a `u64`.
pub proof fn lemma_payout_fits(
    balance: u64,
    target_floor: u64,
    base: u64,
    k_scaled: u64,
    precision: u128,
    min_payout: u64,
    max_payout: u64,
)
    ensures
        0 <= faucet_payout(balance, target_floor, base, k_scaled, precision, min_payout, max_payout) <= u64::MAX,
{
}

/// Proportional controller (P-controller) that decides how many tokens are
/// dispensed: the payout is the base payout plus a bonus proportional to the
/// surplus of the faucet above the target floor, or minus a reduction
/// proportional to its deficit below it (never below zero), then clamped so
/// that it is at least `min_payout` and at most `max_payout` (when
/// `min_payout > max_payout`, `min_payout` wins).
///
/// Returns `None` exactly when `precision` is zero.
pub fn calculate_faucet_payout(
    current_faucet_balance: u64,
    target_floor: u64,
    base_payout: u64,
    k_scaled: u64,
    precision: u128,
    min_payout: u64,
    max_payout: u64,
) -> (result: Option<u64>)
    ensures
        precision == 0 ==> result is None,
        precision != 0 ==> result == Some(
            faucet_payout(
                current_faucet_balance,
                target_floor,
                base_payout,
                k_scaled,
                precision,
                min_payout,
                max_payout,
            ) as u64,
        ),
{
    let mut raw_dispense: u128 = base_payout as u128;
    if current_faucet_balance > target_floor {
        let surplus: u128 = (current_faucet_balance as u128) - (target_floor as u128);
        proof {
            lemma_product_bound(k_scaled, surplus);
        }
        let scaled = (k_scaled as u128).checked_mul(surplus)?;
        let bonus = scaled.checked_div(precision)?;
        proof {
            lemma_quotient_bound(scaled as int, precision as int);
        }
        raw_dispense = raw_dispense.checked_add(bonus)?;
    } else {
        let deficit: u128 = (target_floor as u128) - (current_faucet_balance as u128);
        proof {
            lemma_product_bound(k_scaled, deficit);
        }
        let scaled = (k_scaled as u128).checked_mul(deficit)?;
        let reduction = scaled.checked_div(precision)?;
        raw_dispense = raw_dispense.checked_sub(reduction).unwrap_or(0);
    }
    let capped: u128 = if raw_dispense < max_payout as u128 {
        raw_dispense
    } else {
        max_payout as u128
    };
    let final_payout: u128 = if min_payout as u128 > capped {
        min_payout as u128
    } else {
        capped
    };
    Some(final_payout as u64)
}

proof fn lemma_scaled_quotient_monotone(k: int, a: int, b: int, p: int)
    requires
        0 <= k,
        0 <= a <= b,
        0 < p,
    ensures
        0 <= (k * a) / p <= (k * b) / p,
{
    assert(0 <= k * a <= k * b) by (nonlinear_arith)
        requires
            0 <= k,
            0 <= a <= b,
    ;
    assert(0 <= (k * a) / p <= (k * b) / p) by (nonlinear_arith)
        requires
            0 <= k * a <= k * b,
            0 < p,
    ;
}

/// The raw payout never decreases when the faucet holds more tokens.
proof fn lemma_raw_payout_monotone(b1: int, b2: int, floor: int, base: int, k: int, p: int)
    requires
        0 <= b1 <= b2,
        0 <= floor,
        0 <= base,
        0 <= k,
        0 < p,
    ensures
        raw_payout(b1, floor, base, k, p) <= raw_payout(b2, floor, base, k, p),
{
    if b1 > floor {
        lemma_scaled_quotient_monotone(k, b1 - floor, b2 - floor, p);
    } else if b2 > floor {
        lemma_scaled_quotient_monotone(k, 0, b2 - floor, p);
        lemma_scaled_quotient_monotone(k, 0, floor - b1, p);
    } else {
        lemma_scaled_quotient_monotone(k, floor - b2, floor - b1, p);
    }
}

/// Monotonicity of the controller: a faucet that holds more tokens never pays
/// out less than one that holds fewer, all other settings being equal.
pub proof fn lemma_payout_monotone_in_balance(
    balance_low: u64,
    balance_high: u64,
    target_floor: u64,
    base: u64,
    k_scaled: u64,
    precision: u128,
    min_payout: u64,
    max_payout: u64,
)
    requires
        balance_low <= balance_high,
        precision != 0,
    ensures
        faucet_payout(balance_low, target_floor, base, k_scaled, precision, min_payout, max_payout)
            <= faucet_payout(balance_high, target_floor, base, k_scaled, precision, min_payout, max_payout),
{
    lemma_raw_payout_monotone(
        balance_low as int,
        balance_high as int,
        target_floor as int,
        base as int,
        k_scaled as int,
        precision as int,
    );
}

/// At the target floor the error is zero, so the payout is the base payout
/// (clamped into the payout bounds).
pub proof fn lemma_payout_at_target_floor(
    target_floor: u64,
    base: u64,
    k_scaled: u64,
    precision: u128,
    min_payout: u64,
    max_payout: u64,
)
    requires
        precision != 0,
    ensures
        faucet_payout(target_floor, target_floor, base, k_scaled, precision, min_payout, max_payout)
            == clamp(base as int, min_payout as int, max_payout as int),
{
    assert((k_scaled as int) * 0 == 0) by (nonlinear_arith);
    assert(0int / (precision as int) == 0) by (nonlinear_arith)
        requires
            precision != 0,
    ;
}

/// The payout respects the guard rails: it is never below `min_payout`, and
/// never above `max_payout` unless `min_payout` itself is above `max_payout`.
pub proof fn lemma_payout_within_bounds(
    balance: u64,
    target_floor: u64,
    base: u64,
    k_scaled: u64,
    precision: u128,
    min_payout: u64,
    max_payout: u64,
)
    ensures
        min_payout <= faucet_payout(balance, target_floor, base, k_scaled, precision, min_payout, max_payout),
        min_payout <= max_payout ==> faucet_payout(
            balance,
            target_floor,
            base,
            k_scaled,
            precision,
            min_payout,
            max_payout,
        ) <= max_payout,
{
}

/// A surplus above the target floor never pays less than the (clamped) base
/// payout, and a deficit below it never pays more.
pub proof fn lemma_surplus_pays_at_least_deficit_at_most_base(
    balance: u64,
    target_floor: u64,
    base: u64,
    k_scaled: u64,
    precision: u128,
    min_payout: u64,
    max_payout: u64,
)
    requires
        precision != 0,
    ensures
        balance >= target_floor ==> faucet_payout(
            balance,
            target_floor,
            base,
            k_scaled,
            precision,
            min_payout,
            max_payout,
        ) >= clamp(base as int, min_payout as int, max_payout as int),
        balance <= target_floor ==> faucet_payout(
            balance,
            target_floor,
            base,
            k_scaled,
            precision,
            min_payout,
            max_payout,
        ) <= clamp(base as int, min_payout as int, max_payout as int),
{
    lemma_payout_at_target_floor(target_floor, base, k_scaled, precision, min_payout, max_payout);
    if balance >= target_floor {
        lemma_payout_monotone_in_balance(
            target_floor,
            balance,
            target_floor,
            base,
            k_scaled,
            precision,
            min_payout,
            max_payout,
        );
    } else {
        lemma_payout_monotone_in_balance(
            balance,
            target_floor,
            target_floor,
            base,
            k_scaled,
            precision,
            min_payout,
            max_payout,
        );
    }
}

/// The payout in plain arithmetic: above the target floor the base payout
/// plus `k_scaled * surplus / precision` (rounded down), at or below it the
/// base payout minus `k_scaled * deficit / precision`, or zero when that
/// reduction exceeds the base; then at most `max_payout` and at least
/// `min_payout`.
pub proof fn lemma_payout_formula(
    balance: u64,
    target_floor: u64,
    base: u64,
    k_scaled: u64,
    precision: u128,
    min_payout: u64,
    max_payout: u64,
)
    requires
        precision != 0,
    ensures
        ({
            let raw: int = if balance > target_floor {
                base + (k_scaled * (balance - target_floor)) / (precision as int)
            } else if (k_scaled * (target_floor - balance)) / (precision as int) > base {
                0
            } else {
                base - (k_scaled * (target_floor - balance)) / (precision as int)
            };
            let capped: int = if raw < max_payout { raw } else { max_payout as int };
            faucet_payout(balance, target_floor, base, k_scaled, precision, min_payout, max_payout) == (
            if capped < min_payout {
                min_payout as int
            } else {
                capped
            })
        }),
{
}

} // verus!
