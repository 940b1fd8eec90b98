//! Checked settlement arithmetic: the claim advance, the three-way payout
//! split, and balance moves between token accounts.
use vstd::prelude::*;

use crate::state::{ErrorCode, TokenAccount};

verus! {

/// Per-mille weight of the developer's share.
pub const DEVELOPER_WEIGHT: u64 = 995;

/// Per-mille weight of the public pool's share.
pub const PUBLIC_POOL_WEIGHT: u64 = 3;

/// Per-mille weight of the maintainers' share.
pub const MAINTAINERS_WEIGHT: u64 = 2;

/// Denominator of the per-mille weights.
pub const WEIGHT_DENOMINATOR: u64 = 1000;

/// `amount * weight / 1000` rounded down, or `None` where the product leaves
/// the 64-bit range.
pub open spec fn share_of(amount: u64, weight: u64) -> Option<u64> {
    if amount * weight <= u64::MAX {
        Some(((amount * weight) / 1000) as u64)
    } else {
        None
    }
}

/// Computes `amount * weight / 1000` with a checked multiply before the divide.
pub fn share(amount: u64, weight: u64) -> (r: Result<u64, ErrorCode>)
    ensures
        r == (match share_of(amount, weight) {
            Some(s) => Ok(s),
            None => Err(ErrorCode::NumericalOverflow),
        }),
{
    match amount.checked_mul(weight) {
        Some(product) => match product.checked_div(WEIGHT_DENOMINATOR) {
            Some(q) => Ok(q),
            None => Err(ErrorCode::NumericalOverflow),
        },
        None => Err(ErrorCode::NumericalOverflow),
    }
}

/// The three shares of a final payout.
#[derive(Clone, Copy, Debug, PartialEq, Eq, Structural)]
pub struct PayoutShares {
    pub developer: u64,
    pub public_pool: u64,
    pub maintainers: u64,
}

/// The split of `amount`, or `None` where a share's product overflows.
pub open spec fn split_of(amount: u64) -> Option<PayoutShares> {
    match (
        share_of(amount, 995),
        share_of(amount, 3),
        share_of(amount, 2),
    ) {
        (Some(d), Some(p), Some(m)) => Some(PayoutShares { developer: d, public_pool: p, maintainers: m }),
        _ => None,
    }
}

/// Splits `amount` into the developer's, public pool's and maintainers'
/// shares, each rounded down; the remainder stays unspent.
pub fn payout_shares(amount: u64) -> (r: Result<PayoutShares, ErrorCode>)
    ensures
        r == (match split_of(amount) {
            Some(s) => Ok(s),
            None => Err(ErrorCode::NumericalOverflow),
        }),
        r is Ok <==> amount * 995 <= u64::MAX,
{
    let developer = share(amount, DEVELOPER_WEIGHT)?;
    let public_pool = share(amount, PUBLIC_POOL_WEIGHT)?;
    let maintainers = share(amount, MAINTAINERS_WEIGHT)?;
    Ok(PayoutShares { developer, public_pool, maintainers })
}

/// The sum of the three shares never exceeds the amount split.
pub proof fn lemma_split_within_amount(amount: u64)
    requires
        split_of(amount) is Some,
    ensures
        split_of(amount)->Some_0.developer + split_of(amount)->Some_0.public_pool
            + split_of(amount)->Some_0.maintainers <= amount,
{
    let a = amount as int;
    assert((a * 995) / 1000 + (a * 3) / 1000 + (a * 2) / 1000 <= a) by (nonlinear_arith)
        requires
            a >= 0,
    ;
}

/// The advance paid at claim time: half the bounty, rounded down.
pub fn advance_amount(amount: u64) -> (r: u64)
    ensures
        r == amount / 2,
{
    amount / 2
}

/// Why moving `amount` from `from` to `to` cannot happen, if it cannot.
pub open spec fn transfer_error(from: TokenAccount, to: TokenAccount, amount: u64) -> Option<ErrorCode> {
    if from.amount < amount {
        Some(ErrorCode::InsufficientFunds)
    } else if to.amount + amount > u64::MAX {
        Some(ErrorCode::NumericalOverflow)
    } else {
        None
    }
}

/// Tells whether `amount` can move from `from` to `to`.
pub fn check_transfer(from: &TokenAccount, to: &TokenAccount, amount: u64) -> (r: Option<ErrorCode>)
    ensures
        r == transfer_error(*from, *to, amount),
{
    if from.amount < amount {
        Some(ErrorCode::InsufficientFunds)
    } else if to.amount > u64::MAX - amount {
        Some(ErrorCode::NumericalOverflow)
    } else {
        None
    }
}

/// `post` is `pre` with its balance changed to `amount`.
pub open spec fn with_balance(pre: TokenAccount, amount: int) -> TokenAccount {
    TokenAccount { amount: amount as u64, ..pre }
}

/// Moves `amount` from `from` to `to`.
pub fn move_tokens(from: &mut TokenAccount, to: &mut TokenAccount, amount: u64)
    requires
        transfer_error(*old(from), *old(to), amount) is None,
    ensures
        *final(from) == with_balance(*old(from), old(from).amount - amount),
        *final(to) == with_balance(*old(to), old(to).amount + amount),
{
    from.amount = from.amount - amount;
    to.amount = to.amount + amount;
}

} // verus!
