//! The three-way split of a payment in basis points.

use vstd::prelude::*;
use crate::error::ErrorCode;

verus! {

/// Basis points that make up the whole of an amount.
pub const BPS_DENOMINATOR: u64 = 10_000;

/// The three disbursements of one payment.
#[derive(Clone, Copy, Debug, PartialEq, Eq, Structural)]
pub struct Split {
    pub seller_amount: u64,
    pub tithe_amount: u64,
    pub fee_amount: u64,
}

/// The share of `amount` that `bps` basis points stand for, rounded down.
pub open spec fn bps_share(amount: nat, bps: nat) -> nat {
    (amount * bps) / (BPS_DENOMINATOR as nat)
}

/// Whether every step of the split stays inside `u64`: both products fit, and
/// the two shares together do not exceed the amount.
pub open spec fn split_fits(amount: nat, tithe_bps: nat, fee_bps: nat) -> bool {
    &&& amount * tithe_bps <= u64::MAX
    &&& amount * fee_bps <= u64::MAX
    &&& bps_share(amount, tithe_bps) + bps_share(amount, fee_bps) <= amount
}

/// The split of `amount` at the given rates: tithe and fee each rounded down,
/// the seller receiving what is left.
pub open spec fn split_of(amount: nat, tithe_bps: nat, fee_bps: nat) -> Split {
    Split {
        seller_amount: (amount - bps_share(amount, tithe_bps) - bps_share(amount, fee_bps)) as u64,
        tithe_amount: bps_share(amount, tithe_bps) as u64,
        fee_amount: bps_share(amount, fee_bps) as u64,
    }
}

/// Splits `amount` into tithe, fee and seller proceeds with checked
/// arithmetic. The result is the exact split whenever every intermediate
/// value fits in `u64`, and `MathOverflow` otherwise: nothing wraps.
pub fn split_payment(amount: u64, tithe_bps: u64, fee_bps: u64) -> (r: Result<Split, ErrorCode>)
    ensures
        split_fits(amount as nat, tithe_bps as nat, fee_bps as nat) ==> r == Ok::<
            Split,
            ErrorCode,
        >(split_of(amount as nat, tithe_bps as nat, fee_bps as nat)),
        !split_fits(amount as nat, tithe_bps as nat, fee_bps as nat) ==> r == Err::<
            Split,
            ErrorCode,
        >(ErrorCode::MathOverflow),
        r matches Ok(split) ==> split.seller_amount + split.tithe_amount + split.fee_amount
            == amount,
{
    let tithe_product = match amount.checked_mul(tithe_bps) {
        Some(product) => product,
        None => return Err(ErrorCode::MathOverflow),
    };
    let tithe_amount: u64 = tithe_product / BPS_DENOMINATOR;
    let fee_product = match amount.checked_mul(fee_bps) {
        Some(product) => product,
        None => return Err(ErrorCode::MathOverflow),
    };
    let fee_amount: u64 = fee_product / BPS_DENOMINATOR;
    let after_tithe = match amount.checked_sub(tithe_amount) {
        Some(rest) => rest,
        None => return Err(ErrorCode::MathOverflow),
    };
    let seller_amount = match after_tithe.checked_sub(fee_amount) {
        Some(rest) => rest,
        None => return Err(ErrorCode::MathOverflow),
    };
    Ok(Split { seller_amount, tithe_amount, fee_amount })
}

} // verus!
