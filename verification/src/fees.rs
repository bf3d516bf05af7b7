use vstd::prelude::*;

use vstd::arithmetic::div_mod::lemma_fundamental_div_mod;

use crate::config::BPS_DENOMINATOR;

verus! {

/// The treasury's share of a settled bid: the fee rounded up,
/// `ceil(bid * fee_bps / 10000)`.
pub open spec fn spec_treasury_cut(bid: u64, fee_bps: u16) -> int {
    (bid * fee_bps + (BPS_DENOMINATOR - 1)) / (BPS_DENOMINATOR as int)
}

/// The owner's share of a settled bid: the proceeds rounded down,
/// `floor(bid * (10000 - fee_bps) / 10000)`.
pub open spec fn spec_owner_proceeds(bid: u64, fee_bps: u16) -> int {
    (bid * (BPS_DENOMINATOR - fee_bps)) / (BPS_DENOMINATOR as int)
}

/// The two shares are non-negative and never pay out more than the bid,
/// so settlement can never overdraw the vault. The rounding is asymmetric
/// on purpose — ceiling for the treasury, floor for the owner — and any
/// residual of that asymmetry stays in the vault.
pub proof fn lemma_fee_split_bounded(bid: u64, fee_bps: u16)
    requires
        fee_bps <= BPS_DENOMINATOR,
    ensures
        0 <= spec_treasury_cut(bid, fee_bps) <= bid,
        0 <= spec_owner_proceeds(bid, fee_bps) <= bid,
        spec_treasury_cut(bid, fee_bps) + spec_owner_proceeds(bid, fee_bps) <= bid,
{
    let d = BPS_DENOMINATOR as int;
    let q = bid * fee_bps;
    let p = bid * (BPS_DENOMINATOR - fee_bps);
    assert(0 <= q && 0 <= p && q + p == bid * d && q <= bid * d && p <= bid * d)
        by (nonlinear_arith)
        requires
            fee_bps <= BPS_DENOMINATOR,
            q == bid * fee_bps,
            p == bid * (BPS_DENOMINATOR - fee_bps),
            d == BPS_DENOMINATOR as int,
    ;
    let t = spec_treasury_cut(bid, fee_bps);
    let o = spec_owner_proceeds(bid, fee_bps);
    lemma_fundamental_div_mod(q + (d - 1), d);
    lemma_fundamental_div_mod(p, d);
    assert(d * t == q + (d - 1) - ((q + (d - 1)) % d));
    assert(d * o == p - (p % d));
    assert(d * (t + o) <= bid * d + (d - 1)) by (nonlinear_arith)
        requires
            d * t == q + (d - 1) - ((q + (d - 1)) % d),
            d * o == p - (p % d),
            0 <= (q + (d - 1)) % d < d,
            0 <= p % d < d,
            q + p == bid * d,
            d == BPS_DENOMINATOR as int,
    ;
    assert(t + o <= bid) by (nonlinear_arith)
        requires
            d * (t + o) <= bid * d + (d - 1),
            d == BPS_DENOMINATOR as int,
    ;
    assert(0 <= t) by (nonlinear_arith)
        requires
            d * t == q + (d - 1) - ((q + (d - 1)) % d),
            0 <= (q + (d - 1)) % d < d,
            0 <= q,
            d == BPS_DENOMINATOR as int,
    ;
    assert(0 <= o) by (nonlinear_arith)
        requires
            d * o == p - (p % d),
            0 <= p % d < d,
            0 <= p,
            d == BPS_DENOMINATOR as int,
    ;
}

/// Splits a settled bid into the treasury's fee (rounded up) and the
/// owner's proceeds (rounded down).
pub fn fee_split(bid: u64, fee_bps: u16) -> (r: (u64, u64))
    requires
        fee_bps <= BPS_DENOMINATOR,
    ensures
        r.0 == spec_treasury_cut(bid, fee_bps),
        r.1 == spec_owner_proceeds(bid, fee_bps),
{
    proof {
        lemma_fee_split_bounded(bid, fee_bps);
    }
    let d: u128 = BPS_DENOMINATOR as u128;
    let treasury_cut: u128 = ((bid as u128) * (fee_bps as u128) + (d - 1)) / d;
    let owner_proceeds: u128 = ((bid as u128) * ((BPS_DENOMINATOR - fee_bps) as u128)) / d;
    (treasury_cut as u64, owner_proceeds as u64)
}

} // verus!
