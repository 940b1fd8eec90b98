//! The final payout: a three-way split out of escrow, recorded on the board.
use vstd::prelude::*;

use crate::custody::{board_seeds, check_custody, custody_address, program_address_of};
use crate::instructions::{custody_view, outcome};
use crate::settlement::{payout_shares, split_of, with_balance};
use crate::settlement::move_tokens;
use crate::state::{addresses_equal, Address, BountyBoard, ErrorCode, TokenAccount};

verus! {

/// The accounts of a payout.
pub struct ProcessPayout {
    pub bounty_board: BountyBoard,
    /// The signer.
    pub admin: Address,
    pub escrow_account: TokenAccount,
    /// The developer's account.
    pub destination: TokenAccount,
    pub public_pool: TokenAccount,
    pub maintainers_pool: TokenAccount,
    /// The clock's reading.
    pub now: i64,
}

/// Why a payout of `amount` fails, given the custody address derived for the
/// board, if it fails.
pub open spec fn payout_error(ctx: ProcessPayout, custody: Option<Seq<u8>>, amount: u64) -> Option<ErrorCode> {
    let mint = ctx.bounty_board.token_mint@;
    if ctx.bounty_board.admin@ != ctx.admin@ {
        Some(ErrorCode::Unauthorized)
    } else if split_of(amount) is None {
        Some(ErrorCode::NumericalOverflow)
    } else if custody != Some(ctx.escrow_account.owner@) {
        Some(ErrorCode::InvalidAccountConfig)
    } else if ctx.escrow_account.mint@ != mint || ctx.destination.mint@ != mint
        || ctx.public_pool.mint@ != mint || ctx.maintainers_pool.mint@ != mint {
        Some(ErrorCode::InvalidTokenAccount)
    } else {
        let s = split_of(amount)->Some_0;
        if ctx.escrow_account.amount < s.developer + s.public_pool + s.maintainers {
            Some(ErrorCode::InsufficientFunds)
        } else if ctx.destination.amount + s.developer > u64::MAX
            || ctx.public_pool.amount + s.public_pool > u64::MAX
            || ctx.maintainers_pool.amount + s.maintainers > u64::MAX
            || ctx.bounty_board.total_payouts + amount > u64::MAX {
            Some(ErrorCode::NumericalOverflow)
        } else if ctx.bounty_board.total_payouts + amount > ctx.bounty_board.total_deposits {
            Some(ErrorCode::InsufficientFunds)
        } else {
            None
        }
    }
}

/// `post` is the board `pre` after a payout of `amount` at time `now`.
pub open spec fn paid_out(pre: BountyBoard, post: BountyBoard, amount: u64, now: i64) -> bool {
    &&& pre.total_payouts + amount <= pre.total_deposits
    &&& post == BountyBoard {
        total_payouts: (pre.total_payouts + amount) as u64,
        last_payout: now,
        ..pre
    }
}

/// `post` is `pre` after a payout of `amount`: the three shares moved out of
/// escrow to their accounts, and the board recorded the payout.
pub open spec fn payout_applied(pre: ProcessPayout, post: ProcessPayout, amount: u64) -> bool {
    let s = split_of(amount)->Some_0;
    &&& paid_out(pre.bounty_board, post.bounty_board, amount, pre.now)
    &&& post.escrow_account == with_balance(
        pre.escrow_account,
        pre.escrow_account.amount - (s.developer + s.public_pool + s.maintainers),
    )
    &&& post.destination == with_balance(pre.destination, pre.destination.amount + s.developer)
    &&& post.public_pool == with_balance(pre.public_pool, pre.public_pool.amount + s.public_pool)
    &&& post.maintainers_pool == with_balance(
        pre.maintainers_pool,
        pre.maintainers_pool.amount + s.maintainers,
    )
    &&& post.admin == pre.admin
    &&& post.now == pre.now
}

/// Pays out `amount`, given the custody address derived for the board.
pub fn handler_with(
    ctx: &mut ProcessPayout,
    custody: &Result<Address, ErrorCode>,
    amount: u64,
) -> (r: Result<(), ErrorCode>)
    ensures
        r == outcome(payout_error(*old(ctx), custody_view(*custody), amount)),
        r is Err ==> *final(ctx) == *old(ctx),
        r is Ok ==> payout_applied(*old(ctx), *final(ctx), amount),
{
    if !addresses_equal(&ctx.bounty_board.admin, &ctx.admin) {
        return Err(ErrorCode::Unauthorized);
    }
    let s = payout_shares(amount)?;
    if !check_custody(custody, &ctx.escrow_account.owner) {
        return Err(ErrorCode::InvalidAccountConfig);
    }
    let mint = ctx.bounty_board.token_mint;
    if !addresses_equal(&ctx.escrow_account.mint, &mint)
        || !addresses_equal(&ctx.destination.mint, &mint)
        || !addresses_equal(&ctx.public_pool.mint, &mint)
        || !addresses_equal(&ctx.maintainers_pool.mint, &mint) {
        return Err(ErrorCode::InvalidTokenAccount);
    }
    proof {
        crate::settlement::lemma_split_within_amount(amount);
    }
    if ctx.escrow_account.amount < s.developer + s.public_pool + s.maintainers {
        return Err(ErrorCode::InsufficientFunds);
    }
    if ctx.destination.amount > u64::MAX - s.developer
        || ctx.public_pool.amount > u64::MAX - s.public_pool
        || ctx.maintainers_pool.amount > u64::MAX - s.maintainers {
        return Err(ErrorCode::NumericalOverflow);
    }
    let total = match ctx.bounty_board.total_payouts.checked_add(amount) {
        Some(t) => t,
        None => {
            return Err(ErrorCode::NumericalOverflow);
        },
    };
    if total > ctx.bounty_board.total_deposits {
        return Err(ErrorCode::InsufficientFunds);
    }
    move_tokens(&mut ctx.escrow_account, &mut ctx.destination, s.developer);
    move_tokens(&mut ctx.escrow_account, &mut ctx.public_pool, s.public_pool);
    move_tokens(&mut ctx.escrow_account, &mut ctx.maintainers_pool, s.maintainers);
    ctx.bounty_board.total_payouts = total;
    ctx.bounty_board.last_payout = ctx.now;
    Ok(())
}

/// Pays out `amount` from escrow in three shares, under the custody address
/// re-derived from the board's value unit and nonce, and records it on the
/// board.
pub fn handler(ctx: &mut ProcessPayout, program_id: &Address, amount: u64) -> (r: Result<(), ErrorCode>)
    ensures
        r == outcome(payout_error(
            *old(ctx),
            program_address_of(board_seeds(old(ctx).bounty_board.token_mint@, old(ctx).bounty_board.bump), program_id@),
            amount,
        )),
        r is Err ==> *final(ctx) == *old(ctx),
        r is Ok ==> payout_applied(*old(ctx), *final(ctx), amount),
{
    let custody = custody_address(program_id, &ctx.bounty_board.token_mint, ctx.bounty_board.bump);
    handler_with(ctx, &custody, amount)
}

} // verus!
