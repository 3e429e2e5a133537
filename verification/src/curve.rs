//! The constant-product curve: swap and withdrawal quotes.
//!
//! Everything here is a pure function of the reserves, the supply of pool
//! shares and the caller's numbers, so a quote taken twice on the same
//! observation is the same quote.

use crate::error::AmmError;
use vstd::prelude::*;

verus! {

/// One hundred percent, in basis points.
pub const BPS_DENOMINATOR: u64 = 10_000;

/// The scale of the intermediate share ratio of a withdrawal: six decimal
/// places.
pub const LIQUIDITY_SCALE: u64 = 1_000_000;

/// What a swap moves: `deposit` into the vault of the asset paid in, `withdraw`
/// out of the other vault; `fee` is the part of the offered amount withheld.
#[derive(Clone, Copy, Debug, PartialEq, Eq, Structural)]
pub struct SwapResult {
    pub deposit: u64,
    pub withdraw: u64,
    pub fee: u64,
}

/// An amount of each of the two pool assets.
#[derive(Clone, Copy, Debug, PartialEq, Eq, Structural)]
pub struct XYAmounts {
    pub x: u64,
    pub y: u64,
}

/// The offered amount less the fee, rounded down.
pub open spec fn amount_after_fee(amount_in: nat, fee_bps: nat) -> nat
    recommends
        fee_bps < 10_000,
{
    (amount_in * (10_000 - fee_bps) as nat) / 10_000
}

/// What the curve pays out for `net_in` arriving, rounded down.
pub open spec fn swap_output(reserve_in: nat, reserve_out: nat, net_in: nat) -> nat
    recommends
        reserve_in + net_in > 0,
{
    (reserve_out * net_in) / (reserve_in + net_in)
}

/// The swap quote, as a function of the observed reserves and the caller's
/// numbers.
pub open spec fn swap_quote(
    reserve_in: u64,
    reserve_out: u64,
    amount_in: u64,
    fee_bps: u16,
    min_out: u64,
) -> Result<SwapResult, AmmError> {
    if reserve_in == 0 || reserve_out == 0 || fee_bps >= 10_000 {
        Err(AmmError::ArithmeticFailure)
    } else {
        let net = amount_after_fee(amount_in as nat, fee_bps as nat);
        let out = swap_output(reserve_in as nat, reserve_out as nat, net);
        if net == 0 || out == 0 {
            Err(AmmError::InvalidArgument)
        } else if out < min_out {
            Err(AmmError::SlippageViolation)
        } else {
            Ok(
                SwapResult {
                    deposit: net as u64,
                    withdraw: out as u64,
                    fee: (amount_in - net) as u64,
                },
            )
        }
    }
}

/// The part of `reserve` that burning `amount` of `supply` shares releases:
/// the reserve less what the remaining shares keep, the remaining ratio taken
/// to six decimal places and rounded down.
pub open spec fn withdraw_share(reserve: nat, supply: nat, amount: nat) -> nat
    recommends
        0 < supply,
        amount <= supply,
{
    (reserve - (reserve * (((supply - amount) * 1_000_000) / supply as int)) / 1_000_000) as nat
}

/// The withdrawal quote: the whole of both reserves when the whole supply is
/// burnt, else each reserve's share.
pub open spec fn withdraw_amounts(reserve_x: u64, reserve_y: u64, supply: u64, amount: u64) -> Result<
    XYAmounts,
    AmmError,
> {
    if amount == supply {
        Ok(XYAmounts { x: reserve_x, y: reserve_y })
    } else if amount > supply {
        Err(AmmError::ArithmeticFailure)
    } else {
        Ok(
            XYAmounts {
                x: withdraw_share(reserve_x as nat, supply as nat, amount as nat) as u64,
                y: withdraw_share(reserve_y as nat, supply as nat, amount as nat) as u64,
            },
        )
    }
}

/// The fee never adds to the offered amount.
pub proof fn lemma_after_fee_bounded(amount_in: nat, fee_bps: nat)
    requires
        fee_bps < 10_000,
    ensures
        amount_after_fee(amount_in, fee_bps) <= amount_in,
        fee_bps == 0 ==> amount_after_fee(amount_in, fee_bps) == amount_in,
{
    let keep: nat = (10_000 - fee_bps) as nat;
    assert(amount_in * keep <= amount_in * 10_000) by (nonlinear_arith)
        requires
            keep <= 10_000,
    ;
    assert((amount_in * keep) / 10_000 <= amount_in) by (nonlinear_arith)
        requires
            amount_in * keep <= amount_in * 10_000,
    ;
    if fee_bps == 0 {
        assert((amount_in * 10_000) / 10_000 == amount_in) by (nonlinear_arith);
    }
}

/// A swap pays out less than the whole reserve, and never more than the
/// product allows: the product of the reserves after the trade is at least the
/// product before it.
pub proof fn lemma_swap_keeps_product(reserve_in: nat, reserve_out: nat, net_in: nat)
    requires
        reserve_in > 0,
        reserve_out > 0,
    ensures
        swap_output(reserve_in, reserve_out, net_in) < reserve_out,
        (reserve_in + net_in) * (reserve_out - swap_output(reserve_in, reserve_out, net_in))
            >= reserve_in * reserve_out,
{
    let d: nat = reserve_in + net_in;
    let n: nat = reserve_out * net_in;
    let out: nat = n / d;
    assert(out * d <= n) by (nonlinear_arith)
        requires
            out == n / d,
            d > 0,
    ;
    assert(n < reserve_out * d) by (nonlinear_arith)
        requires
            n == reserve_out * net_in,
            d == reserve_in + net_in,
            reserve_in > 0,
            reserve_out > 0,
    ;
    assert(out < reserve_out) by (nonlinear_arith)
        requires
            out * d <= n,
            n < reserve_out * d,
            d > 0,
    ;
    assert(d * (reserve_out - out) >= reserve_in * reserve_out) by (nonlinear_arith)
        requires
            out * d <= n,
            n == reserve_out * net_in,
            d == reserve_in + net_in,
    ;
}

/// The swap invariant on the quote itself: for positive reserves and a fee
/// below one hundred percent, the reserves after the quoted trade multiply to
/// no less than before.
pub proof fn lemma_swap_quote_invariant(reserve_in: u64, reserve_out: u64, amount_in: u64, fee_bps: u16)
    requires
        reserve_in > 0,
        reserve_out > 0,
        amount_in > 0,
        fee_bps < 10_000,
    ensures
        ({
            let net = amount_after_fee(amount_in as nat, fee_bps as nat);
            let out = swap_output(reserve_in as nat, reserve_out as nat, net);
            &&& out < reserve_out
            &&& (reserve_in + net) * (reserve_out - out) >= reserve_in * reserve_out
        }),
{
    let net = amount_after_fee(amount_in as nat, fee_bps as nat);
    lemma_swap_keeps_product(reserve_in as nat, reserve_out as nat, net);
}

/// A share is never more than the reserve, and burning every share releases
/// the reserve exactly.
pub proof fn lemma_withdraw_share_bounded(reserve: nat, supply: nat, amount: nat)
    requires
        0 < supply,
        amount <= supply,
    ensures
        withdraw_share(reserve, supply, amount) <= reserve,
        (reserve * (((supply - amount) * 1_000_000) / supply as int)) / 1_000_000 <= reserve,
        0 <= ((supply - amount) * 1_000_000) / supply as int <= 1_000_000,
        withdraw_share(reserve, supply, supply) == reserve,
        withdraw_share(reserve, supply, 0) == 0,
{
    let left: int = supply - amount;
    let ratio: int = (left * 1_000_000) / supply as int;
    assert(0 <= ratio <= 1_000_000) by (nonlinear_arith)
        requires
            ratio == (left * 1_000_000) / supply as int,
            0 <= left <= supply,
            supply > 0,
    ;
    assert(0 <= (reserve * ratio) / 1_000_000 <= reserve) by (nonlinear_arith)
        requires
            0 <= ratio <= 1_000_000,
            reserve >= 0,
    ;
    assert(((supply - supply) * 1_000_000) / supply as int == 0) by (nonlinear_arith)
        requires
            supply > 0,
    ;
    assert((reserve * 0) / 1_000_000 == 0) by (nonlinear_arith);
    assert(((supply - 0) * 1_000_000) / supply as int == 1_000_000) by (nonlinear_arith)
        requires
            supply > 0,
    ;
    assert((reserve * 1_000_000) / 1_000_000 == reserve) by (nonlinear_arith);
}

/// Burning more shares never releases less.
pub proof fn lemma_withdraw_share_monotone(reserve: nat, supply: nat, less: nat, more: nat)
    requires
        0 < supply,
        less <= more <= supply,
    ensures
        withdraw_share(reserve, supply, less) <= withdraw_share(reserve, supply, more),
{
    let ratio_less: int = ((supply - less) * 1_000_000) / supply as int;
    let ratio_more: int = ((supply - more) * 1_000_000) / supply as int;
    lemma_withdraw_share_bounded(reserve, supply, less);
    lemma_withdraw_share_bounded(reserve, supply, more);
    assert(ratio_more <= ratio_less) by (nonlinear_arith)
        requires
            ratio_less == ((supply - less) * 1_000_000) / supply as int,
            ratio_more == ((supply - more) * 1_000_000) / supply as int,
            less <= more <= supply,
            supply > 0,
    ;
    assert((reserve * ratio_more) / 1_000_000 <= (reserve * ratio_less) / 1_000_000)
        by (nonlinear_arith)
        requires
            0 <= ratio_more <= ratio_less,
            reserve >= 0,
    ;
}

/// The withdrawal law on whole quotes: burning the whole supply returns the
/// reserves exactly; between two burns of at most the supply, the larger
/// returns at least as much of each asset.
pub proof fn lemma_withdraw_amounts_monotone(
    reserve_x: u64,
    reserve_y: u64,
    supply: u64,
    less: u64,
    more: u64,
)
    requires
        0 < less <= more <= supply,
    ensures
        withdraw_amounts(reserve_x, reserve_y, supply, supply) == Ok::<XYAmounts, AmmError>(
            XYAmounts { x: reserve_x, y: reserve_y },
        ),
        withdraw_amounts(reserve_x, reserve_y, supply, less) is Ok,
        withdraw_amounts(reserve_x, reserve_y, supply, more) is Ok,
        withdraw_amounts(reserve_x, reserve_y, supply, less)->Ok_0.x <= withdraw_amounts(
            reserve_x,
            reserve_y,
            supply,
            more,
        )->Ok_0.x,
        withdraw_amounts(reserve_x, reserve_y, supply, less)->Ok_0.y <= withdraw_amounts(
            reserve_x,
            reserve_y,
            supply,
            more,
        )->Ok_0.y,
{
    lemma_withdraw_share_monotone(reserve_x as nat, supply as nat, less as nat, more as nat);
    lemma_withdraw_share_monotone(reserve_y as nat, supply as nat, less as nat, more as nat);
    lemma_withdraw_share_bounded(reserve_x as nat, supply as nat, less as nat);
    lemma_withdraw_share_bounded(reserve_y as nat, supply as nat, less as nat);
    lemma_withdraw_share_bounded(reserve_x as nat, supply as nat, more as nat);
    lemma_withdraw_share_bounded(reserve_y as nat, supply as nat, more as nat);
}

/// Quotes a swap of `amount_in` against the reserves: the fee comes off the
/// offered amount, the curve prices what is left. Both amounts moved must be
/// positive, and the amount paid out at least `min_out`.
pub fn quote_swap(reserve_in: u64, reserve_out: u64, amount_in: u64, fee_bps: u16, min_out: u64) -> (r:
    Result<SwapResult, AmmError>)
    ensures
        r == swap_quote(reserve_in, reserve_out, amount_in, fee_bps, min_out),
{
    if reserve_in == 0 || reserve_out == 0 || fee_bps >= 10_000 {
        return Err(AmmError::ArithmeticFailure);
    }
    let keep: u128 = (10_000 - fee_bps) as u128;
    proof {
        lemma_after_fee_bounded(amount_in as nat, fee_bps as nat);
        assert(amount_in as nat * keep as nat <= 0xFFFF_FFFF_FFFF_FFFF * 10_000) by (nonlinear_arith)
            requires
                amount_in <= 0xFFFF_FFFF_FFFF_FFFF,
                keep <= 10_000,
        ;
    }
    let net: u128 = (amount_in as u128) * keep / 10_000;
    proof {
        lemma_swap_keeps_product(reserve_in as nat, reserve_out as nat, net as nat);
        assert(reserve_out as nat * net as nat <= 0xFFFF_FFFF_FFFF_FFFF * 0xFFFF_FFFF_FFFF_FFFF)
            by (nonlinear_arith)
            requires
                reserve_out <= 0xFFFF_FFFF_FFFF_FFFF,
                net <= 0xFFFF_FFFF_FFFF_FFFF,
        ;
    }
    let out: u128 = (reserve_out as u128) * net / (reserve_in as u128 + net);
    if net == 0 || out == 0 {
        return Err(AmmError::InvalidArgument);
    }
    if out < min_out as u128 {
        return Err(AmmError::SlippageViolation);
    }
    Ok(SwapResult { deposit: net as u64, withdraw: out as u64, fee: amount_in - net as u64 })
}

/// The share of one reserve that burning `amount` of `supply` releases.
fn share_of(reserve: u64, supply: u64, amount: u64) -> (share: u64)
    requires
        0 < supply,
        amount <= supply,
    ensures
        share == withdraw_share(reserve as nat, supply as nat, amount as nat),
{
    let left: u128 = (supply - amount) as u128;
    proof {
        lemma_withdraw_share_bounded(reserve as nat, supply as nat, amount as nat);
        assert(left * 1_000_000 <= 0xFFFF_FFFF_FFFF_FFFF * 1_000_000) by (nonlinear_arith)
            requires
                left <= 0xFFFF_FFFF_FFFF_FFFF,
        ;
    }
    let ratio: u128 = left * 1_000_000 / (supply as u128);
    proof {
        assert(reserve as nat * ratio as nat <= 0xFFFF_FFFF_FFFF_FFFF * 1_000_000) by (nonlinear_arith)
            requires
                reserve <= 0xFFFF_FFFF_FFFF_FFFF,
                ratio <= 1_000_000,
        ;
    }
    let kept: u128 = (reserve as u128) * ratio / 1_000_000;
    (reserve as u128 - kept) as u64
}

/// Quotes a withdrawal: what burning `amount` of the `supply` of pool shares
/// releases from each reserve.
pub fn quote_withdraw(reserve_x: u64, reserve_y: u64, supply: u64, amount: u64) -> (r: Result<
    XYAmounts,
    AmmError,
>)
    ensures
        r == withdraw_amounts(reserve_x, reserve_y, supply, amount),
{
    if amount == supply {
        return Ok(XYAmounts { x: reserve_x, y: reserve_y });
    }
    if amount > supply {
        return Err(AmmError::ArithmeticFailure);
    }
    let x: u64 = share_of(reserve_x, supply, amount);
    let y: u64 = share_of(reserve_y, supply, amount);
    Ok(XYAmounts { x, y })
}

/// What an accepted swap quote is worth: both amounts moved are positive, the
/// amount paid out is at least the floor and less than the reserve it comes
/// from, the amount paid in is the offered amount less the fee, and the
/// product of the reserves after the trade is at least the product before.
pub proof fn lemma_swap_quote_sound(
    reserve_in: u64,
    reserve_out: u64,
    amount_in: u64,
    fee_bps: u16,
    min_out: u64,
)
    requires
        swap_quote(reserve_in, reserve_out, amount_in, fee_bps, min_out) is Ok,
    ensures
        ({
            let quote = swap_quote(reserve_in, reserve_out, amount_in, fee_bps, min_out)->Ok_0;
            &&& reserve_in > 0 && reserve_out > 0 && fee_bps < 10_000
            &&& quote.deposit == amount_after_fee(amount_in as nat, fee_bps as nat)
            &&& quote.withdraw == swap_output(
                reserve_in as nat,
                reserve_out as nat,
                quote.deposit as nat,
            )
            &&& 0 < quote.deposit <= amount_in
            &&& quote.deposit + quote.fee == amount_in
            &&& 0 < quote.withdraw < reserve_out
            &&& quote.withdraw >= min_out
            &&& (reserve_in + quote.deposit) * (reserve_out - quote.withdraw) >= reserve_in
                * reserve_out
        }),
{
    let net = amount_after_fee(amount_in as nat, fee_bps as nat);
    lemma_after_fee_bounded(amount_in as nat, fee_bps as nat);
    lemma_swap_keeps_product(reserve_in as nat, reserve_out as nat, net);
}

} // verus!
