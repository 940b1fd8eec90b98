//! Creating a bounty: its record at the board's next bounty address, and its
//! deposit into escrow.
use vstd::prelude::*;

use crate::custody::{
    board_seeds, bounty_address, bounty_seeds, canonical_address_of, check_custody, custody_address,
    program_address_of,
};
use crate::instructions::{custody_view, found_view, outcome};
use crate::settlement::{check_transfer, move_tokens, transfer_error, with_balance};
use crate::state::{addresses_equal, Address, Bounty, BountyBoard, BountyStatus, ErrorCode, TokenAccount};

verus! {

/// The accounts of a bounty's creation.
pub struct CreateBounty {
    pub bounty_board: BountyBoard,
    /// Address of the board, which is also its custody authority.
    pub board_key: Address,
    /// The signer.
    pub admin: Address,
    /// Address presented for the new bounty.
    pub bounty_key: Address,
    /// The record at `bounty_key`; `None` while that address is unused.
    pub bounty: Option<Bounty>,
    /// The administrator's funding account.
    pub admin_token_account: TokenAccount,
    pub escrow_account: TokenAccount,
    pub token_mint: Address,
}

/// Why creating a bounty of `amount` fails, given the address and bump found
/// for the board's next bounty and the custody address derived for the board,
/// if it fails.
pub open spec fn create_error(
    ctx: CreateBounty,
    found: Option<(Seq<u8>, u8)>,
    custody: Option<Seq<u8>>,
    amount: u64,
) -> Option<ErrorCode> {
    if ctx.bounty_board.admin@ != ctx.admin@ {
        Some(ErrorCode::Unauthorized)
    } else if !(found is Some && found->Some_0.0 == ctx.bounty_key@) {
        Some(ErrorCode::InvalidAccountConfig)
    } else if ctx.bounty is Some {
        Some(ErrorCode::AlreadyInitialized)
    } else if ctx.token_mint@ != ctx.bounty_board.token_mint@
        || ctx.admin_token_account.mint@ != ctx.token_mint@
        || ctx.escrow_account.mint@ != ctx.token_mint@ {
        Some(ErrorCode::InvalidTokenAccount)
    } else if custody != Some(ctx.board_key@) || ctx.escrow_account.owner@ != ctx.board_key@ {
        Some(ErrorCode::InvalidAccountConfig)
    } else if ctx.admin_token_account.owner@ != ctx.admin@ {
        Some(ErrorCode::Unauthorized)
    } else if transfer_error(ctx.admin_token_account, ctx.escrow_account, amount) is Some {
        transfer_error(ctx.admin_token_account, ctx.escrow_account, amount)
    } else if ctx.bounty_board.total_bounties == u64::MAX
        || ctx.bounty_board.total_deposits + amount > u64::MAX {
        Some(ErrorCode::NumericalOverflow)
    } else {
        None
    }
}

/// `post` is `pre` after a bounty of `amount` was created with `bump`: the
/// record is open and unclaimed, `amount` moved from the administrator into
/// escrow, and the board counted one more bounty and `amount` more deposited.
pub open spec fn created(
    pre: CreateBounty,
    post: CreateBounty,
    bump: u8,
    amount: u64,
    github_issue: String,
    expires_at: i64,
) -> bool {
    &&& post.bounty == Some(Bounty {
        amount,
        github_issue,
        expires_at,
        status: BountyStatus::Open,
        claimant: None,
        bump,
    })
    &&& post.escrow_account == with_balance(pre.escrow_account, pre.escrow_account.amount + amount)
    &&& post.admin_token_account == with_balance(
        pre.admin_token_account,
        pre.admin_token_account.amount - amount,
    )
    &&& post.bounty_board == BountyBoard {
        total_bounties: (pre.bounty_board.total_bounties + 1) as u64,
        total_deposits: (pre.bounty_board.total_deposits + amount) as u64,
        ..pre.bounty_board
    }
    &&& post.board_key == pre.board_key
    &&& post.admin == pre.admin
    &&& post.bounty_key == pre.bounty_key
    &&& post.token_mint == pre.token_mint
}

/// Creates a bounty, given the address and bump found for the board's next
/// bounty and the custody address derived for the board.
pub fn handler_at(
    ctx: &mut CreateBounty,
    found: Option<(Address, u8)>,
    custody: &Result<Address, ErrorCode>,
    amount: u64,
    github_issue: String,
    expires_at: i64,
) -> (r: Result<(), ErrorCode>)
    ensures
        r == outcome(create_error(*old(ctx), found_view(found), custody_view(*custody), amount)),
        r is Err ==> *final(ctx) == *old(ctx),
        r is Ok ==> created(*old(ctx), *final(ctx), found->Some_0.1, amount, github_issue, expires_at),
{
    if !addresses_equal(&ctx.bounty_board.admin, &ctx.admin) {
        return Err(ErrorCode::Unauthorized);
    }
    let bump: u8 = match found {
        Some((a, b)) => {
            if !addresses_equal(&a, &ctx.bounty_key) {
                return Err(ErrorCode::InvalidAccountConfig);
            }
            b
        },
        None => {
            return Err(ErrorCode::InvalidAccountConfig);
        },
    };
    if ctx.bounty.is_some() {
        return Err(ErrorCode::AlreadyInitialized);
    }
    if !addresses_equal(&ctx.token_mint, &ctx.bounty_board.token_mint)
        || !addresses_equal(&ctx.admin_token_account.mint, &ctx.token_mint)
        || !addresses_equal(&ctx.escrow_account.mint, &ctx.token_mint) {
        return Err(ErrorCode::InvalidTokenAccount);
    }
    if !check_custody(custody, &ctx.board_key)
        || !addresses_equal(&ctx.escrow_account.owner, &ctx.board_key) {
        return Err(ErrorCode::InvalidAccountConfig);
    }
    if !addresses_equal(&ctx.admin_token_account.owner, &ctx.admin) {
        return Err(ErrorCode::Unauthorized);
    }
    if let Some(e) = check_transfer(&ctx.admin_token_account, &ctx.escrow_account, amount) {
        return Err(e);
    }
    let next = match ctx.bounty_board.total_bounties.checked_add(1) {
        Some(n) => n,
        None => {
            return Err(ErrorCode::NumericalOverflow);
        },
    };
    let deposits = match ctx.bounty_board.total_deposits.checked_add(amount) {
        Some(d) => d,
        None => {
            return Err(ErrorCode::NumericalOverflow);
        },
    };
    move_tokens(&mut ctx.admin_token_account, &mut ctx.escrow_account, amount);
    ctx.bounty = Some(Bounty {
        amount,
        github_issue,
        expires_at,
        status: BountyStatus::Open,
        claimant: None,
        bump,
    });
    ctx.bounty_board.total_bounties = next;
    ctx.bounty_board.total_deposits = deposits;
    Ok(())
}

/// Creates the board's next bounty: finds its address from the board's
/// address and bounty count, and checks it against the one presented; checks
/// that the board and its escrow sit at the custody address re-derived from
/// the board's value unit and nonce.
pub fn handler(
    ctx: &mut CreateBounty,
    program_id: &Address,
    amount: u64,
    github_issue: String,
    expires_at: i64,
) -> (r: Result<(), ErrorCode>)
    ensures
        ({
            let found = canonical_address_of(
                bounty_seeds(old(ctx).board_key@, old(ctx).bounty_board.total_bounties),
                program_id@,
            );
            let custody = program_address_of(
                board_seeds(old(ctx).bounty_board.token_mint@, old(ctx).bounty_board.bump),
                program_id@,
            );
            &&& r == outcome(create_error(*old(ctx), found, custody, amount))
            &&& r is Ok ==> created(*old(ctx), *final(ctx), found->Some_0.1, amount, github_issue, expires_at)
        }),
        r is Err ==> *final(ctx) == *old(ctx),
{
    let found = bounty_address(program_id, &ctx.board_key, ctx.bounty_board.total_bounties);
    let custody = custody_address(program_id, &ctx.bounty_board.token_mint, ctx.bounty_board.bump);
    handler_at(ctx, found, &custody, amount, github_issue, expires_at)
}

} // verus!
