//! Claiming a bounty: the lifecycle guards, and the advance out of escrow.
use vstd::prelude::*;

use crate::custody::{board_seeds, check_custody, custody_address, program_address_of};
use crate::instructions::{custody_view, outcome};
use crate::settlement::{advance_amount, check_transfer, move_tokens, transfer_error, with_balance};
use crate::state::{addresses_equal, Address, Bounty, BountyBoard, BountyStatus, ErrorCode, TokenAccount};

verus! {

/// The accounts of a claim.
pub struct ClaimBounty {
    pub bounty: Bounty,
    pub bounty_board: BountyBoard,
    pub claimant_reward_account: TokenAccount,
    pub escrow_account: TokenAccount,
    /// The signer.
    pub claimant: Address,
    /// The clock's reading.
    pub now: i64,
}

/// Why a claim fails, given the custody address derived for the board, if it
/// fails. The lifecycle is checked first.
pub open spec fn claim_error(ctx: ClaimBounty, custody: Option<Seq<u8>>) -> Option<ErrorCode> {
    if ctx.bounty.status != BountyStatus::Open {
        Some(ErrorCode::InvalidBountyStatus)
    } else if ctx.now >= ctx.bounty.expires_at {
        Some(ErrorCode::BountyExpired)
    } else if ctx.bounty.claimant is Some {
        Some(ErrorCode::AlreadyClaimed)
    } else if custody != Some(ctx.escrow_account.owner@) {
        Some(ErrorCode::InvalidAccountConfig)
    } else if ctx.escrow_account.mint@ != ctx.bounty_board.token_mint@
        || ctx.claimant_reward_account.mint@ != ctx.bounty_board.token_mint@
        || ctx.claimant_reward_account.owner@ != ctx.claimant@ {
        Some(ErrorCode::InvalidTokenAccount)
    } else {
        transfer_error(ctx.escrow_account, ctx.claimant_reward_account, ctx.bounty.amount / 2)
    }
}

/// `post` is `pre` after a claim: the bounty is claimed by the signer, and half
/// its amount, rounded down, moved from escrow to the claimant.
pub open spec fn claimed(pre: ClaimBounty, post: ClaimBounty) -> bool {
    let advance = pre.bounty.amount / 2;
    &&& post.bounty == Bounty {
        status: BountyStatus::Claimed,
        claimant: Some(pre.claimant),
        ..pre.bounty
    }
    &&& post.escrow_account == with_balance(pre.escrow_account, pre.escrow_account.amount - advance)
    &&& post.claimant_reward_account == with_balance(
        pre.claimant_reward_account,
        pre.claimant_reward_account.amount + advance,
    )
    &&& post.bounty_board == pre.bounty_board
    &&& post.claimant == pre.claimant
    &&& post.now == pre.now
}

/// Claims a bounty, given the custody address derived for the board.
pub fn handler_with(ctx: &mut ClaimBounty, custody: &Result<Address, ErrorCode>) -> (r: Result<(), ErrorCode>)
    ensures
        r == outcome(claim_error(*old(ctx), custody_view(*custody))),
        r is Err ==> *final(ctx) == *old(ctx),
        r is Ok ==> claimed(*old(ctx), *final(ctx)),
{
    if ctx.bounty.status != BountyStatus::Open {
        return Err(ErrorCode::InvalidBountyStatus);
    }
    if ctx.now >= ctx.bounty.expires_at {
        return Err(ErrorCode::BountyExpired);
    }
    if ctx.bounty.claimant.is_some() {
        return Err(ErrorCode::AlreadyClaimed);
    }
    if !check_custody(custody, &ctx.escrow_account.owner) {
        return Err(ErrorCode::InvalidAccountConfig);
    }
    if !addresses_equal(&ctx.escrow_account.mint, &ctx.bounty_board.token_mint)
        || !addresses_equal(&ctx.claimant_reward_account.mint, &ctx.bounty_board.token_mint)
        || !addresses_equal(&ctx.claimant_reward_account.owner, &ctx.claimant) {
        return Err(ErrorCode::InvalidTokenAccount);
    }
    let advance = advance_amount(ctx.bounty.amount);
    if let Some(e) = check_transfer(&ctx.escrow_account, &ctx.claimant_reward_account, advance) {
        return Err(e);
    }
    ctx.bounty.status = BountyStatus::Claimed;
    ctx.bounty.claimant = Some(ctx.claimant);
    move_tokens(&mut ctx.escrow_account, &mut ctx.claimant_reward_account, advance);
    Ok(())
}

/// Claims a bounty for the signer and pays the advance out of escrow, under
/// the custody address re-derived from the board's value unit and nonce.
pub fn handler(ctx: &mut ClaimBounty, program_id: &Address) -> (r: Result<(), ErrorCode>)
    ensures
        r == outcome(claim_error(
            *old(ctx),
            program_address_of(board_seeds(old(ctx).bounty_board.token_mint@, old(ctx).bounty_board.bump), program_id@),
        )),
        r is Err ==> *final(ctx) == *old(ctx),
        r is Ok ==> claimed(*old(ctx), *final(ctx)),
{
    let custody = custody_address(program_id, &ctx.bounty_board.token_mint, ctx.bounty_board.bump);
    handler_with(ctx, &custody)
}

} // verus!
