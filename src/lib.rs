//! Custodial bounty-escrow ledger: a board holds reward funds in escrow under
//! a keyless custody authority, bounties move from `Open` to `Claimed` with a
//! half advance, and payouts split a final amount into three fixed shares.
use vstd::prelude::*;

use crate::custody::{
    board_seeds, bounty_seeds, canonical_address_of, check_custody, custody_address, program_address_of,
};
use crate::instructions::claim_bounty::{claim_error, claimed, ClaimBounty};
use crate::instructions::create_bounty::{create_error, created, CreateBounty};
use crate::instructions::{custody_view, outcome};
use crate::instructions::process_payout::{payout_applied, payout_error, ProcessPayout};
use crate::state::{Address, BountyBoard, ErrorCode};

pub mod custody;
pub mod instructions;
pub mod laws;
pub mod settlement;
pub mod state;

verus! {

/// The fresh board of `admin` for the value unit `token_mint`, with custody
/// nonce `bump`.
pub open spec fn fresh_board(admin: Address, token_mint: Address, bump: u8) -> BountyBoard {
    BountyBoard {
        admin,
        token_mint,
        total_bounties: 0,
        total_deposits: 0,
        total_payouts: 0,
        last_payout: 0,
        bump,
    }
}

/// Initializes a board at `board_key`, given the custody address derived from
/// `token_mint` and `bump`: the board must sit at that address, which then
/// signs for every escrow account it owns.
pub fn initialize_board_with(
    custody: &Result<Address, ErrorCode>,
    board_key: &Address,
    admin: Address,
    token_mint: Address,
    bump: u8,
) -> (r: Result<BountyBoard, ErrorCode>)
    ensures
        custody_view(*custody) == Some(board_key@) ==> r == Ok::<BountyBoard, ErrorCode>(
            fresh_board(admin, token_mint, bump),
        ),
        custody_view(*custody) != Some(board_key@) ==> r == Err::<BountyBoard, ErrorCode>(
            ErrorCode::InvalidAccountConfig,
        ),
{
    if !check_custody(custody, board_key) {
        return Err(ErrorCode::InvalidAccountConfig);
    }
    Ok(
        BountyBoard {
            admin,
            token_mint,
            total_bounties: 0,
            total_deposits: 0,
            total_payouts: 0,
            last_payout: 0,
            bump,
        },
    )
}

/// Initializes the board of `admin` for the value unit `token_mint` at
/// `board_key`, which must be the custody address derived from `token_mint`
/// and `bump`.
pub fn initialize_board(
    program_id: &Address,
    board_key: &Address,
    admin: Address,
    token_mint: Address,
    bump: u8,
) -> (r: Result<BountyBoard, ErrorCode>)
    ensures
        program_address_of(board_seeds(token_mint@, bump), program_id@) == Some(board_key@)
            ==> r == Ok::<BountyBoard, ErrorCode>(fresh_board(admin, token_mint, bump)),
        program_address_of(board_seeds(token_mint@, bump), program_id@) != Some(board_key@)
            ==> r == Err::<BountyBoard, ErrorCode>(ErrorCode::InvalidAccountConfig),
{
    let custody = custody_address(program_id, &token_mint, bump);
    initialize_board_with(&custody, board_key, admin, token_mint, bump)
}

/// Creates the board's next bounty, of `amount`, for the task `github_issue`,
/// open until `expires_at`, and deposits `amount` into escrow.
pub fn create_bounty(
    ctx: &mut CreateBounty,
    program_id: &Address,
    amount: u64,
    github_issue: String,
    expires_at: i64,
) -> (r: Result<(), ErrorCode>)
    ensures
        ({
            let found = canonical_address_of(
                bounty_seeds(old(ctx).board_key@, old(ctx).bounty_board.total_bounties),
                program_id@,
            );
            let custody = program_address_of(
                board_seeds(old(ctx).bounty_board.token_mint@, old(ctx).bounty_board.bump),
                program_id@,
            );
            &&& r == outcome(create_error(*old(ctx), found, custody, amount))
            &&& r is Ok ==> created(*old(ctx), *final(ctx), found->Some_0.1, amount, github_issue, expires_at)
        }),
        r is Err ==> *final(ctx) == *old(ctx),
{
    instructions::create_bounty::handler(ctx, program_id, amount, github_issue, expires_at)
}

/// Claims an open bounty for the signer and pays half of it in advance.
pub fn claim_bounty(ctx: &mut ClaimBounty, program_id: &Address) -> (r: Result<(), ErrorCode>)
    ensures
        r == outcome(claim_error(
            *old(ctx),
            program_address_of(board_seeds(old(ctx).bounty_board.token_mint@, old(ctx).bounty_board.bump), program_id@),
        )),
        r is Err ==> *final(ctx) == *old(ctx),
        r is Ok ==> claimed(*old(ctx), *final(ctx)),
{
    instructions::claim_bounty::handler(ctx, program_id)
}

/// Pays out `amount` for a completed task, split among the developer and the
/// two pools.
pub fn process_payout(ctx: &mut ProcessPayout, program_id: &Address, amount: u64) -> (r: Result<(), ErrorCode>)
    ensures
        r == outcome(payout_error(
            *old(ctx),
            program_address_of(board_seeds(old(ctx).bounty_board.token_mint@, old(ctx).bounty_board.bump), program_id@),
            amount,
        )),
        r is Err ==> *final(ctx) == *old(ctx),
        r is Ok ==> payout_applied(*old(ctx), *final(ctx), amount),
{
    instructions::process_payout::handler(ctx, program_id, amount)
}

} // verus!
