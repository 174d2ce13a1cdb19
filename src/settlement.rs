use vstd::prelude::*;

verus! {

/// Basis points in a whole: a fee of this many basis points takes everything.
pub const BPS_DENOMINATOR: u64 = 10000;

/// The fee taken from a pooled balance: `floor(balance * fee_bps / 10000)`.
pub open spec fn flip_fee(balance: int, fee_bps: int) -> int {
    (balance * fee_bps) / 10000
}

/// What the winner of a binary-outcome settlement receives.
pub open spec fn flip_payout(balance: int, fee_bps: int) -> int {
    balance - flip_fee(balance, fee_bps)
}

/// Splits a pooled balance into `(fee, payout)` for a binary-outcome settlement.
pub fn flip_split(balance: u64, fee_bps: u64) -> (r: (u64, u64))
    requires
        fee_bps <= BPS_DENOMINATOR,
    ensures
        r.0 == flip_fee(balance as int, fee_bps as int),
        r.1 == flip_payout(balance as int, fee_bps as int),
        r.0 + r.1 == balance,
{
    proof {
        lemma_flip_fee_bounded(balance as int, fee_bps as int);
    }
    let product: u128 = (balance as u128) * (fee_bps as u128);
    let fee: u128 = product / (BPS_DENOMINATOR as u128);
    let fee: u64 = fee as u64;
    (fee, balance - fee)
}

/// The fee never exceeds the balance, so fee and payout are both non-negative
/// and together make up exactly the balance; an empty pool or a zero rate
/// takes no fee.
pub proof fn lemma_flip_fee_bounded(balance: int, fee_bps: int)
    requires
        0 <= balance,
        0 <= fee_bps <= 10000,
    ensures
        0 <= flip_fee(balance, fee_bps) <= balance,
        0 <= flip_payout(balance, fee_bps) <= balance,
        flip_fee(balance, fee_bps) + flip_payout(balance, fee_bps) == balance,
        balance == 0 ==> flip_fee(balance, fee_bps) == 0,
        fee_bps == 0 ==> flip_fee(balance, fee_bps) == 0,
{
    assert(0 <= balance * fee_bps <= balance * 10000) by (nonlinear_arith)
        requires
            0 <= balance,
            0 <= fee_bps <= 10000,
    ;
    assert((balance * fee_bps) / 10000 <= balance) by (nonlinear_arith)
        requires
            0 <= balance * fee_bps <= balance * 10000,
    ;
}

/// The price of `quantity` units at `unit_price` each.
pub open spec fn sale_total(unit_price: int, quantity: int) -> int {
    unit_price * quantity
}

/// The price of `quantity` units, or `None` when it does not fit in a `u64`.
pub fn checked_sale_total(unit_price: u64, quantity: u64) -> (r: Option<u64>)
    ensures
        r is Some <==> sale_total(unit_price as int, quantity as int) <= u64::MAX,
        r matches Some(t) ==> t == sale_total(unit_price as int, quantity as int),
{
    assert((unit_price as int) * (quantity as int) <= u64::MAX as int * u64::MAX as int) by (nonlinear_arith)
        requires
            unit_price <= u64::MAX,
            quantity <= u64::MAX,
    ;
    let product: u128 = (unit_price as u128) * (quantity as u128);
    if product <= u64::MAX as u128 {
        Some(product as u64)
    } else {
        None
    }
}

} // verus!
