use anchor_lang::solana_program::pubkey::Pubkey;
use bounty_board::custody::{bounty_address, custody_address, u64_le_bytes};
use bounty_board::instructions::claim_bounty::{self, ClaimBounty};
use bounty_board::instructions::create_bounty::{self, CreateBounty};
use bounty_board::instructions::process_payout::{self, ProcessPayout};
use bounty_board::settlement::{advance_amount, payout_shares, share, PayoutShares};
use bounty_board::state::{addresses_equal, Address, Bounty, BountyBoard, BountyStatus, ErrorCode, TokenAccount};
use bounty_board::{claim_bounty, create_bounty, initialize_board, initialize_board_with, process_payout};

const ADMIN: Address = [1u8; 32];
const MINT: Address = [2u8; 32];
const BOARD: Address = [3u8; 32];
const CLAIMANT: Address = [4u8; 32];
const BOUNTY_KEY: Address = [5u8; 32];
const OTHER: Address = [9u8; 32];

fn account(mint: Address, owner: Address, amount: u64) -> TokenAccount {
    TokenAccount { mint, owner, amount }
}

fn board(total_deposits: u64) -> BountyBoard {
    BountyBoard {
        admin: ADMIN,
        token_mint: MINT,
        total_bounties: 0,
        total_deposits,
        total_payouts: 0,
        last_payout: 0,
        bump: 255,
    }
}

fn open_bounty(amount: u64, expires_at: i64) -> Bounty {
    Bounty {
        amount,
        github_issue: "https://example.org/issues/1".to_string(),
        expires_at,
        status: BountyStatus::Open,
        claimant: None,
        bump: 254,
    }
}

fn claim_ctx(amount: u64) -> ClaimBounty {
    ClaimBounty {
        bounty: open_bounty(amount, 1_000),
        bounty_board: board(0),
        claimant_reward_account: account(MINT, CLAIMANT, 0),
        escrow_account: account(MINT, BOARD, amount),
        claimant: CLAIMANT,
        now: 500,
    }
}

fn create_ctx(funds: u64) -> CreateBounty {
    CreateBounty {
        bounty_board: board(0),
        board_key: BOARD,
        admin: ADMIN,
        bounty_key: BOUNTY_KEY,
        bounty: None,
        admin_token_account: account(MINT, ADMIN, funds),
        escrow_account: account(MINT, BOARD, 0),
        token_mint: MINT,
    }
}

fn payout_ctx(escrow: u64) -> ProcessPayout {
    ProcessPayout {
        bounty_board: board(1_000_000),
        admin: ADMIN,
        escrow_account: account(MINT, BOARD, escrow),
        destination: account(MINT, [6u8; 32], 0),
        public_pool: account(MINT, [7u8; 32], 0),
        maintainers_pool: account(MINT, [8u8; 32], 0),
        now: 1_234,
    }
}

#[test]
fn split_of_one_thousand() {
    assert_eq!(
        payout_shares(1000),
        Ok(PayoutShares { developer: 995, public_pool: 3, maintainers: 2 })
    );
}

#[test]
fn split_truncates_seven() {
    assert_eq!(
        payout_shares(7),
        Ok(PayoutShares { developer: 6, public_pool: 0, maintainers: 0 })
    );
}

#[test]
fn split_overflow() {
    assert_eq!(payout_shares(u64::MAX), Err(ErrorCode::NumericalOverflow));
    assert_eq!(payout_shares(u64::MAX / 995 + 1), Err(ErrorCode::NumericalOverflow));
    assert!(payout_shares(u64::MAX / 995).is_ok());
}

#[test]
fn share_exact_values() {
    assert_eq!(share(12_345, 995), Ok(12_283));
    assert_eq!(share(0, 3), Ok(0));
    assert_eq!(share(u64::MAX, 2), Err(ErrorCode::NumericalOverflow));
}

#[test]
fn advance_rounds_down() {
    assert_eq!(advance_amount(101), 50);
    assert_eq!(advance_amount(100), 50);
    assert_eq!(advance_amount(1), 0);
}

#[test]
fn claim_pays_half_and_keeps_remainder() {
    let mut ctx = claim_ctx(101);
    assert_eq!(claim_bounty::handler_with(&mut ctx, &Ok(BOARD)), Ok(()));
    assert_eq!(ctx.claimant_reward_account.amount, 50);
    assert_eq!(ctx.escrow_account.amount, 51);
    assert_eq!(ctx.bounty.status, BountyStatus::Claimed);
    assert_eq!(ctx.bounty.claimant, Some(CLAIMANT));
    assert_eq!(ctx.bounty.amount, 101);
}

#[test]
fn claim_twice_fails() {
    let mut ctx = claim_ctx(100);
    assert_eq!(claim_bounty::handler_with(&mut ctx, &Ok(BOARD)), Ok(()));
    assert_eq!(
        claim_bounty::handler_with(&mut ctx, &Ok(BOARD)),
        Err(ErrorCode::InvalidBountyStatus)
    );
    assert_eq!(ctx.escrow_account.amount, 50);
    assert_eq!(ctx.claimant_reward_account.amount, 50);
}

#[test]
fn claim_not_open_fails_whatever_the_time() {
    for status in [BountyStatus::Claimed, BountyStatus::Completed, BountyStatus::Expired] {
        for now in [0i64, 999, 1_000, 5_000] {
            let mut ctx = claim_ctx(100);
            ctx.bounty.status = status;
            ctx.now = now;
            assert_eq!(
                claim_bounty::handler_with(&mut ctx, &Ok(BOARD)),
                Err(ErrorCode::InvalidBountyStatus)
            );
            assert_eq!(ctx.escrow_account.amount, 100);
        }
    }
}

#[test]
fn claim_after_deadline_fails() {
    let mut ctx = claim_ctx(100);
    ctx.now = 1_000;
    assert_eq!(claim_bounty::handler_with(&mut ctx, &Ok(BOARD)), Err(ErrorCode::BountyExpired));
    ctx.now = 2_000;
    assert_eq!(claim_bounty::handler_with(&mut ctx, &Ok(BOARD)), Err(ErrorCode::BountyExpired));
    assert_eq!(ctx.bounty.status, BountyStatus::Open);
    assert_eq!(ctx.bounty.claimant, None);
}

#[test]
fn claim_with_claimant_already_set_fails() {
    let mut ctx = claim_ctx(100);
    ctx.bounty.claimant = Some(OTHER);
    assert_eq!(claim_bounty::handler_with(&mut ctx, &Ok(BOARD)), Err(ErrorCode::AlreadyClaimed));
}

#[test]
fn claim_custody_mismatch_fails_closed() {
    let mut ctx = claim_ctx(100);
    assert_eq!(
        claim_bounty::handler_with(&mut ctx, &Ok(OTHER)),
        Err(ErrorCode::InvalidAccountConfig)
    );
    assert_eq!(
        claim_bounty::handler_with(&mut ctx, &Err(ErrorCode::InvalidAccountConfig)),
        Err(ErrorCode::InvalidAccountConfig)
    );
    assert_eq!(ctx.escrow_account.amount, 100);
}

#[test]
fn claim_wrong_value_unit_fails() {
    let mut ctx = claim_ctx(100);
    ctx.claimant_reward_account.mint = OTHER;
    assert_eq!(
        claim_bounty::handler_with(&mut ctx, &Ok(BOARD)),
        Err(ErrorCode::InvalidTokenAccount)
    );
}

#[test]
fn claim_short_escrow_fails() {
    let mut ctx = claim_ctx(100);
    ctx.escrow_account.amount = 49;
    assert_eq!(
        claim_bounty::handler_with(&mut ctx, &Ok(BOARD)),
        Err(ErrorCode::InsufficientFunds)
    );
}

#[test]
fn claim_reward_overflow_fails() {
    let mut ctx = claim_ctx(100);
    ctx.claimant_reward_account.amount = u64::MAX - 10;
    assert_eq!(
        claim_bounty::handler_with(&mut ctx, &Ok(BOARD)),
        Err(ErrorCode::NumericalOverflow)
    );
    assert_eq!(ctx.claimant_reward_account.amount, u64::MAX - 10);
    assert_eq!(ctx.bounty.status, BountyStatus::Open);
}

#[test]
fn create_escrows_amount_and_counts() {
    let mut ctx = create_ctx(1_000);
    let r = create_bounty::handler_at(&mut ctx, Some((BOUNTY_KEY, 253)), &Ok(BOARD), 400, "issue-7".to_string(), 99);
    assert_eq!(r, Ok(()));
    assert_eq!(ctx.escrow_account.amount, 400);
    assert_eq!(ctx.admin_token_account.amount, 600);
    assert_eq!(ctx.bounty_board.total_bounties, 1);
    assert_eq!(ctx.bounty_board.total_deposits, 400);
    let b = ctx.bounty.clone().unwrap();
    assert_eq!(b.amount, 400);
    assert_eq!(b.github_issue, "issue-7");
    assert_eq!(b.expires_at, 99);
    assert_eq!(b.status, BountyStatus::Open);
    assert_eq!(b.claimant, None);
    assert_eq!(b.bump, 253);
    let again = create_bounty::handler_at(&mut ctx, Some((BOUNTY_KEY, 253)), &Ok(BOARD), 400, "issue-7".to_string(), 99);
    assert_eq!(again, Err(ErrorCode::AlreadyInitialized));
    assert_eq!(ctx.bounty_board.total_bounties, 1);
    assert_eq!(ctx.escrow_account.amount, 400);
}

#[test]
fn create_errors() {
    let mut ctx = create_ctx(1_000);
    ctx.admin = OTHER;
    assert_eq!(
        create_bounty::handler_at(&mut ctx, Some((BOUNTY_KEY, 1)), &Ok(BOARD), 1, String::new(), 0),
        Err(ErrorCode::Unauthorized)
    );
    let mut ctx = create_ctx(1_000);
    assert_eq!(
        create_bounty::handler_at(&mut ctx, Some((OTHER, 1)), &Ok(BOARD), 1, String::new(), 0),
        Err(ErrorCode::InvalidAccountConfig)
    );
    assert_eq!(
        create_bounty::handler_at(&mut ctx, None, &Ok(BOARD), 1, String::new(), 0),
        Err(ErrorCode::InvalidAccountConfig)
    );
    ctx.token_mint = OTHER;
    assert_eq!(
        create_bounty::handler_at(&mut ctx, Some((BOUNTY_KEY, 1)), &Ok(BOARD), 1, String::new(), 0),
        Err(ErrorCode::InvalidTokenAccount)
    );
    let mut ctx = create_ctx(1_000);
    ctx.escrow_account.owner = ADMIN;
    assert_eq!(
        create_bounty::handler_at(&mut ctx, Some((BOUNTY_KEY, 1)), &Ok(BOARD), 1, String::new(), 0),
        Err(ErrorCode::InvalidAccountConfig)
    );
    let mut ctx = create_ctx(1_000);
    assert_eq!(
        create_bounty::handler_at(&mut ctx, Some((BOUNTY_KEY, 1)), &Ok(BOARD), 1_001, String::new(), 0),
        Err(ErrorCode::InsufficientFunds)
    );
    assert_eq!(ctx.admin_token_account.amount, 1_000);
}

#[test]
fn create_counter_overflow_leaves_state() {
    let mut ctx = create_ctx(1_000);
    ctx.bounty_board.total_bounties = u64::MAX;
    assert_eq!(
        create_bounty::handler_at(&mut ctx, Some((BOUNTY_KEY, 1)), &Ok(BOARD), 10, String::new(), 0),
        Err(ErrorCode::NumericalOverflow)
    );
    assert_eq!(ctx.bounty_board.total_bounties, u64::MAX);
    assert!(ctx.bounty.is_none());
    assert_eq!(ctx.escrow_account.amount, 0);
    assert_eq!(ctx.admin_token_account.amount, 1_000);
}

#[test]
fn payout_splits_one_thousand() {
    let mut ctx = payout_ctx(1_000);
    assert_eq!(process_payout::handler_with(&mut ctx, &Ok(BOARD), 1_000), Ok(()));
    assert_eq!(ctx.destination.amount, 995);
    assert_eq!(ctx.public_pool.amount, 3);
    assert_eq!(ctx.maintainers_pool.amount, 2);
    assert_eq!(ctx.escrow_account.amount, 0);
    assert_eq!(ctx.bounty_board.total_payouts, 1_000);
    assert_eq!(ctx.bounty_board.last_payout, 1_234);
}

#[test]
fn payout_of_seven_truncates() {
    let mut ctx = payout_ctx(10);
    assert_eq!(process_payout::handler_with(&mut ctx, &Ok(BOARD), 7), Ok(()));
    assert_eq!(ctx.destination.amount, 6);
    assert_eq!(ctx.public_pool.amount, 0);
    assert_eq!(ctx.maintainers_pool.amount, 0);
    assert_eq!(ctx.escrow_account.amount, 4);
    assert_eq!(ctx.bounty_board.total_payouts, 7);
}

#[test]
fn payouts_sum_into_total() {
    let mut ctx = payout_ctx(100_000);
    let amounts = [1_000u64, 7, 250, 3];
    for a in amounts {
        assert_eq!(process_payout::handler_with(&mut ctx, &Ok(BOARD), a), Ok(()));
    }
    assert_eq!(ctx.bounty_board.total_payouts, 1_260);
}

#[test]
fn payout_errors_leave_state() {
    let mut ctx = payout_ctx(1_000);
    ctx.admin = OTHER;
    assert_eq!(process_payout::handler_with(&mut ctx, &Ok(BOARD), 10), Err(ErrorCode::Unauthorized));
    let mut ctx = payout_ctx(1_000);
    assert_eq!(
        process_payout::handler_with(&mut ctx, &Ok(BOARD), u64::MAX),
        Err(ErrorCode::NumericalOverflow)
    );
    assert_eq!(
        process_payout::handler_with(&mut ctx, &Ok(OTHER), 10),
        Err(ErrorCode::InvalidAccountConfig)
    );
    ctx.public_pool.mint = OTHER;
    assert_eq!(
        process_payout::handler_with(&mut ctx, &Ok(BOARD), 10),
        Err(ErrorCode::InvalidTokenAccount)
    );
    let mut ctx = payout_ctx(1_000);
    assert_eq!(
        process_payout::handler_with(&mut ctx, &Ok(BOARD), 2_000),
        Err(ErrorCode::InsufficientFunds)
    );
    ctx.bounty_board.total_payouts = u64::MAX - 5;
    assert_eq!(
        process_payout::handler_with(&mut ctx, &Ok(BOARD), 10),
        Err(ErrorCode::NumericalOverflow)
    );
    assert_eq!(ctx.bounty_board.total_payouts, u64::MAX - 5);
    assert_eq!(ctx.bounty_board.last_payout, 0);
    assert_eq!(ctx.escrow_account.amount, 1_000);
    assert_eq!(ctx.destination.amount, 0);
}

#[test]
fn le_bytes_of_counter() {
    assert_eq!(u64_le_bytes(0x0102_0304_0506_0708), vec![8, 7, 6, 5, 4, 3, 2, 1]);
    assert_eq!(u64_le_bytes(0), vec![0; 8]);
    assert_eq!(u64_le_bytes(u64::MAX), vec![255; 8]);
}

#[test]
fn address_equality() {
    assert!(addresses_equal(&MINT, &MINT));
    let mut a = MINT;
    a[31] = 0;
    assert!(!addresses_equal(&MINT, &a));
}

#[test]
fn custody_address_matches_program_derivation() {
    let program_id: Address = [17u8; 32];
    let pid = Pubkey::new_from_array(program_id);
    let (expected, bump) = Pubkey::find_program_address(&[b"bounty_board", &MINT], &pid);
    let derived = custody_address(&program_id, &MINT, bump).unwrap();
    assert_eq!(derived, expected.to_bytes());
    assert_ne!(derived, MINT);
    assert_ne!(derived, program_id);
}

#[test]
fn bounty_address_matches_program_derivation() {
    let program_id: Address = [17u8; 32];
    let pid = Pubkey::new_from_array(program_id);
    let (expected, bump) =
        Pubkey::find_program_address(&[b"bounty", &BOARD, &5u64.to_le_bytes()], &pid);
    assert_eq!(bounty_address(&program_id, &BOARD, 5), Some((expected.to_bytes(), bump)));
    assert_ne!(bounty_address(&program_id, &BOARD, 6), Some((expected.to_bytes(), bump)));
}

#[test]
fn full_lifecycle_with_derived_addresses() {
    let program_id: Address = [17u8; 32];
    let pid = Pubkey::new_from_array(program_id);
    let (board_key, bump) = Pubkey::find_program_address(&[b"bounty_board", &MINT], &pid);
    let board_key = board_key.to_bytes();
    let board: BountyBoard = initialize_board(&program_id, &board_key, ADMIN, MINT, bump).unwrap();
    assert_eq!(board.total_bounties, 0);
    assert_eq!(board.total_deposits, 0);
    assert_eq!(board.total_payouts, 0);
    assert_eq!(board.bump, bump);
    let (bounty_key, _) = bounty_address(&program_id, &board_key, 0).unwrap();
    let mut create = CreateBounty {
        bounty_board: board,
        board_key,
        admin: ADMIN,
        bounty_key,
        bounty: None,
        admin_token_account: account(MINT, ADMIN, 5_000),
        escrow_account: account(MINT, board_key, 0),
        token_mint: MINT,
    };
    assert_eq!(create_bounty(&mut create, &program_id, 2_000, "issue-42".to_string(), 10_000), Ok(()));
    assert_eq!(create.escrow_account.amount, 2_000);
    assert_eq!(create.bounty_board.total_bounties, 1);
    // The counter moved on, so the same address is no longer the next one.
    assert_eq!(
        create_bounty(&mut create, &program_id, 2_000, "issue-42".to_string(), 10_000),
        Err(ErrorCode::InvalidAccountConfig)
    );

    let mut claim = ClaimBounty {
        bounty: create.bounty.clone().unwrap(),
        bounty_board: create.bounty_board,
        claimant_reward_account: account(MINT, CLAIMANT, 0),
        escrow_account: create.escrow_account,
        claimant: CLAIMANT,
        now: 9_000,
    };
    assert_eq!(claim_bounty(&mut claim, &program_id), Ok(()));
    assert_eq!(claim.claimant_reward_account.amount, 1_000);
    assert_eq!(claim.escrow_account.amount, 1_000);
    assert_eq!(claim_bounty(&mut claim, &program_id), Err(ErrorCode::InvalidBountyStatus));

    let mut payout = ProcessPayout {
        bounty_board: claim.bounty_board,
        admin: ADMIN,
        escrow_account: claim.escrow_account,
        destination: account(MINT, CLAIMANT, 0),
        public_pool: account(MINT, [7u8; 32], 0),
        maintainers_pool: account(MINT, [8u8; 32], 0),
        now: 9_500,
    };
    assert_eq!(process_payout(&mut payout, &program_id, 1_000), Ok(()));
    assert_eq!(payout.destination.amount, 995);
    assert_eq!(payout.public_pool.amount, 3);
    assert_eq!(payout.maintainers_pool.amount, 2);
    assert_eq!(payout.bounty_board.total_payouts, 1_000);
    assert_eq!(payout.bounty_board.last_payout, 9_500);

    let mut wrong_bump = payout;
    wrong_bump.bounty_board.bump = bump.wrapping_sub(1);
    let r = process_payout(&mut wrong_bump, &program_id, 10);
    assert_eq!(r, Err(ErrorCode::InvalidAccountConfig));
}

#[test]
fn create_escrow_of_other_value_unit_fails() {
    let mut ctx = create_ctx(1_000);
    ctx.escrow_account.mint = OTHER;
    assert_eq!(
        create_bounty::handler_at(&mut ctx, Some((BOUNTY_KEY, 1)), &Ok(BOARD), 10, String::new(), 0),
        Err(ErrorCode::InvalidTokenAccount)
    );
    assert!(ctx.bounty.is_none());
    assert_eq!(ctx.bounty_board.total_bounties, 0);
    assert_eq!(ctx.escrow_account.amount, 0);
    assert_eq!(ctx.admin_token_account.amount, 1_000);
}

#[test]
fn create_outside_custody_fails() {
    let mut ctx = create_ctx(1_000);
    assert_eq!(
        create_bounty::handler_at(&mut ctx, Some((BOUNTY_KEY, 1)), &Ok(OTHER), 10, String::new(), 0),
        Err(ErrorCode::InvalidAccountConfig)
    );
    assert_eq!(
        create_bounty::handler_at(
            &mut ctx,
            Some((BOUNTY_KEY, 1)),
            &Err(ErrorCode::InvalidAccountConfig),
            10,
            String::new(),
            0
        ),
        Err(ErrorCode::InvalidAccountConfig)
    );
    assert!(ctx.bounty.is_none());
}

#[test]
fn create_deposit_total_overflow_fails() {
    let mut ctx = create_ctx(1_000);
    ctx.bounty_board.total_deposits = u64::MAX - 5;
    assert_eq!(
        create_bounty::handler_at(&mut ctx, Some((BOUNTY_KEY, 1)), &Ok(BOARD), 10, String::new(), 0),
        Err(ErrorCode::NumericalOverflow)
    );
    assert_eq!(ctx.bounty_board.total_deposits, u64::MAX - 5);
    assert_eq!(ctx.bounty_board.total_bounties, 0);
}

#[test]
fn payout_beyond_deposits_fails() {
    let mut ctx = payout_ctx(1_000);
    ctx.bounty_board.total_deposits = 5;
    ctx.escrow_account.amount = 0;
    assert_eq!(process_payout::handler_with(&mut ctx, &Ok(BOARD), 1), Ok(()));
    assert_eq!(ctx.bounty_board.total_payouts, 1);
    assert_eq!(
        process_payout::handler_with(&mut ctx, &Ok(BOARD), 5),
        Err(ErrorCode::InsufficientFunds)
    );
    assert_eq!(ctx.bounty_board.total_payouts, 1);
    ctx.escrow_account.amount = 10;
    assert_eq!(process_payout::handler_with(&mut ctx, &Ok(BOARD), 4), Ok(()));
    assert_eq!(ctx.escrow_account.amount, 7);
    assert_eq!(ctx.bounty_board.total_payouts, 5);
}

#[test]
fn initialize_board_at_custody_address() {
    let b = initialize_board_with(&Ok(BOARD), &BOARD, ADMIN, MINT, 7).unwrap();
    assert_eq!(b.admin, ADMIN);
    assert_eq!(b.token_mint, MINT);
    assert_eq!(b.bump, 7);
    assert_eq!(b.total_deposits, 0);
    assert_eq!(
        initialize_board_with(&Ok(OTHER), &BOARD, ADMIN, MINT, 7).unwrap_err(),
        ErrorCode::InvalidAccountConfig
    );
    let program_id: Address = [17u8; 32];
    assert_eq!(
        initialize_board(&program_id, &BOARD, ADMIN, MINT, 255).unwrap_err(),
        ErrorCode::InvalidAccountConfig
    );
}
