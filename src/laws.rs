//! Properties of the ledger that span its operations.
use vstd::prelude::*;

use crate::instructions::claim_bounty::{claim_error, claimed, ClaimBounty};
use crate::instructions::create_bounty::{create_error, created, CreateBounty};
use crate::instructions::process_payout::{paid_out, payout_error, ProcessPayout};
use crate::settlement::{split_of, transfer_error};
use crate::state::{Bounty, BountyBoard, BountyStatus, ErrorCode};

verus! {

/// A successful creation escrows exactly the amount requested, records it on
/// the bounty, and counts exactly one more bounty; creating again on the same
/// accounts then fails, whatever address is found and amount asked.
pub proof fn lemma_create_escrows_once(
    pre: CreateBounty,
    post: CreateBounty,
    found: Option<(Seq<u8>, u8)>,
    custody: Option<Seq<u8>>,
    bump: u8,
    amount: u64,
    github_issue: String,
    expires_at: i64,
    found_again: Option<(Seq<u8>, u8)>,
    custody_again: Option<Seq<u8>>,
    amount_again: u64,
)
    requires
        create_error(pre, found, custody, amount) is None,
        created(pre, post, bump, amount, github_issue, expires_at),
    ensures
        post.escrow_account.amount == pre.escrow_account.amount + amount,
        post.bounty->Some_0.amount == amount,
        post.bounty_board.total_bounties == pre.bounty_board.total_bounties + 1,
        post.bounty_board.total_deposits == pre.bounty_board.total_deposits + amount,
        create_error(post, found_again, custody_again, amount_again) is Some,
{
}

/// A claim on a bounty that is not open fails with `InvalidBountyStatus`,
/// whatever the clock reads.
pub proof fn lemma_claim_needs_open(ctx: ClaimBounty, custody: Option<Seq<u8>>)
    requires
        ctx.bounty.status != BountyStatus::Open,
    ensures
        claim_error(ctx, custody) == Some(ErrorCode::InvalidBountyStatus),
{
}

/// A claim on an open bounty at or after its deadline fails with
/// `BountyExpired`, also when nobody ever claimed it.
pub proof fn lemma_claim_after_deadline(ctx: ClaimBounty, custody: Option<Seq<u8>>)
    requires
        ctx.bounty.status == BountyStatus::Open,
        ctx.now >= ctx.bounty.expires_at,
    ensures
        claim_error(ctx, custody) == Some(ErrorCode::BountyExpired),
{
}

/// A bounty is claimed at most once: once a claim succeeded, any further claim
/// of that bounty, by anyone and at any time, fails with `InvalidBountyStatus`.
pub proof fn lemma_claim_once(
    pre: ClaimBounty,
    post: ClaimBounty,
    custody: Option<Seq<u8>>,
    again: ClaimBounty,
    custody_again: Option<Seq<u8>>,
)
    requires
        claim_error(pre, custody) is None,
        claimed(pre, post),
        again.bounty == post.bounty,
    ensures
        claim_error(again, custody_again) == Some(ErrorCode::InvalidBountyStatus),
        post.bounty.wf(),
{
}

/// A successful claim pays exactly half the bounty, rounded down, and leaves
/// the rest of what escrow held there.
pub proof fn lemma_claim_advance(pre: ClaimBounty, post: ClaimBounty, custody: Option<Seq<u8>>)
    requires
        claim_error(pre, custody) is None,
        claimed(pre, post),
    ensures
        post.claimant_reward_account.amount == pre.claimant_reward_account.amount + pre.bounty.amount / 2,
        post.escrow_account.amount == pre.escrow_account.amount - pre.bounty.amount / 2,
        pre.escrow_account.amount == pre.bounty.amount ==> post.escrow_account.amount
            == pre.bounty.amount - pre.bounty.amount / 2,
{
}

/// An authorized payout whose share products leave the 64-bit range fails
/// with `NumericalOverflow`.
pub proof fn lemma_payout_share_overflow(ctx: ProcessPayout, custody: Option<Seq<u8>>, amount: u64)
    requires
        ctx.bounty_board.admin@ == ctx.admin@,
        amount * 995 > u64::MAX,
    ensures
        payout_error(ctx, custody, amount) == Some(ErrorCode::NumericalOverflow),
{
}

/// A payout that passes every other check but would push the board's total
/// past the 64-bit range fails with `NumericalOverflow`.
pub proof fn lemma_payout_total_overflow(ctx: ProcessPayout, custody: Option<Seq<u8>>, amount: u64)
    requires
        ctx.bounty_board.admin@ == ctx.admin@,
        split_of(amount) is Some,
        custody == Some(ctx.escrow_account.owner@),
        ctx.escrow_account.mint@ == ctx.bounty_board.token_mint@,
        ctx.destination.mint@ == ctx.bounty_board.token_mint@,
        ctx.public_pool.mint@ == ctx.bounty_board.token_mint@,
        ctx.maintainers_pool.mint@ == ctx.bounty_board.token_mint@,
        ctx.escrow_account.amount >= split_of(amount)->Some_0.developer
            + split_of(amount)->Some_0.public_pool + split_of(amount)->Some_0.maintainers,
        ctx.bounty_board.total_payouts + amount > u64::MAX,
    ensures
        payout_error(ctx, custody, amount) == Some(ErrorCode::NumericalOverflow),
{
}

/// A creation that passes every other check on a board whose bounty counter
/// is at its maximum fails with `NumericalOverflow`.
pub proof fn lemma_create_counter_overflow(
    ctx: CreateBounty,
    found: Option<(Seq<u8>, u8)>,
    custody: Option<Seq<u8>>,
    amount: u64,
)
    requires
        create_valid(ctx, found, custody, amount),
        ctx.bounty_board.total_bounties == u64::MAX,
    ensures
        create_error(ctx, found, custody, amount) == Some(ErrorCode::NumericalOverflow),
{
}

/// Everything a creation checks holds, but for the board's counters.
pub open spec fn create_valid(
    ctx: CreateBounty,
    found: Option<(Seq<u8>, u8)>,
    custody: Option<Seq<u8>>,
    amount: u64,
) -> bool {
    &&& ctx.bounty_board.admin@ == ctx.admin@
    &&& found is Some && found->Some_0.0 == ctx.bounty_key@
    &&& ctx.bounty is None
    &&& ctx.token_mint@ == ctx.bounty_board.token_mint@
    &&& ctx.admin_token_account.mint@ == ctx.token_mint@
    &&& ctx.escrow_account.mint@ == ctx.token_mint@
    &&& ctx.escrow_account.owner@ == ctx.board_key@
    &&& custody == Some(ctx.board_key@)
    &&& ctx.admin_token_account.owner@ == ctx.admin@
    &&& transfer_error(ctx.admin_token_account, ctx.escrow_account, amount) is None
}

/// A creation signed by the administrator, at the board's next bounty address
/// while it is unused, with every account of the board's value unit, escrow
/// under the board's custody address, enough funds and room in every counter,
/// succeeds; it then escrows exactly `amount` and counts one more bounty.
pub proof fn lemma_create_succeeds(
    pre: CreateBounty,
    post: CreateBounty,
    found: Option<(Seq<u8>, u8)>,
    custody: Option<Seq<u8>>,
    amount: u64,
    github_issue: String,
    expires_at: i64,
)
    requires
        create_valid(pre, found, custody, amount),
        pre.bounty_board.total_bounties < u64::MAX,
        pre.bounty_board.total_deposits + amount <= u64::MAX,
    ensures
        create_error(pre, found, custody, amount) is None,
        created(pre, post, found->Some_0.1, amount, github_issue, expires_at) ==> {
            &&& post.escrow_account.amount == pre.escrow_account.amount + amount
            &&& post.admin_token_account.amount == pre.admin_token_account.amount - amount
            &&& post.bounty->Some_0.amount == amount
            &&& post.bounty_board.total_bounties == pre.bounty_board.total_bounties + 1
        },
{
}

/// A claim of an open, unclaimed bounty before its deadline, with escrow under
/// the board's custody address, accounts of the board's value unit, the reward
/// account the signer's, enough in escrow and room in the reward account,
/// succeeds, and pays exactly half the bounty rounded down.
pub proof fn lemma_claim_succeeds(pre: ClaimBounty, post: ClaimBounty, custody: Option<Seq<u8>>)
    requires
        pre.bounty.status == BountyStatus::Open,
        pre.bounty.claimant is None,
        pre.now < pre.bounty.expires_at,
        custody == Some(pre.escrow_account.owner@),
        pre.escrow_account.mint@ == pre.bounty_board.token_mint@,
        pre.claimant_reward_account.mint@ == pre.bounty_board.token_mint@,
        pre.claimant_reward_account.owner@ == pre.claimant@,
        pre.escrow_account.amount >= pre.bounty.amount / 2,
        pre.claimant_reward_account.amount + pre.bounty.amount / 2 <= u64::MAX,
    ensures
        claim_error(pre, custody) is None,
        claimed(pre, post) ==> {
            &&& post.claimant_reward_account.amount == pre.claimant_reward_account.amount
                + pre.bounty.amount / 2
            &&& post.escrow_account.amount == pre.escrow_account.amount - pre.bounty.amount / 2
        },
{
}

/// The bounty after a claim attempt: claimed by the signer where the attempt
/// succeeds, as it was otherwise.
pub open spec fn bounty_after_claim(ctx: ClaimBounty, custody: Option<Seq<u8>>) -> Bounty {
    if claim_error(ctx, custody) is None {
        Bounty { status: BountyStatus::Claimed, claimant: Some(ctx.claimant), ..ctx.bounty }
    } else {
        ctx.bounty
    }
}

/// In any run of claim attempts on one bounty, each seeing the bounty the one
/// before left, at most one succeeds: after a success every later attempt fails
/// with `InvalidBountyStatus`, and the claimant and status stay as that success
/// set them.
pub proof fn lemma_claims_succeed_once(
    attempts: Seq<ClaimBounty>,
    custodies: Seq<Option<Seq<u8>>>,
    i: int,
    j: int,
)
    requires
        attempts.len() == custodies.len(),
        forall|k: int|
            0 <= k < attempts.len() - 1 ==> attempts[k + 1].bounty == #[trigger] bounty_after_claim(
                attempts[k],
                custodies[k],
            ),
        0 <= i < j < attempts.len(),
        claim_error(attempts[i], custodies[i]) is None,
    ensures
        claim_error(attempts[j], custodies[j]) == Some(ErrorCode::InvalidBountyStatus),
        attempts[j].bounty == attempts[i + 1].bounty,
        attempts[j].bounty.status == BountyStatus::Claimed,
        attempts[j].bounty.claimant == Some(attempts[i].claimant),
    decreases j - i,
{
    assert(attempts[i + 1].bounty == bounty_after_claim(attempts[i], custodies[i]));
    if j > i + 1 {
        lemma_claims_succeed_once(attempts, custodies, i, j - 1);
        assert(attempts[j].bounty == bounty_after_claim(attempts[j - 1], custodies[j - 1]));
    }
}

/// A fresh board has paid out nothing; creation and payout keep the total paid
/// out within the total deposited.
pub proof fn lemma_board_within_deposits(
    create_pre: CreateBounty,
    create_post: CreateBounty,
    bump: u8,
    amount: u64,
    github_issue: String,
    expires_at: i64,
    board: BountyBoard,
    paid: BountyBoard,
    payout: u64,
    now: i64,
)
    requires
        create_pre.bounty_board.wf(),
        create_pre.bounty_board.total_deposits + amount <= u64::MAX,
        created(create_pre, create_post, bump, amount, github_issue, expires_at),
        board.wf(),
        paid_out(board, paid, payout, now),
    ensures
        create_post.bounty_board.wf(),
        paid.wf(),
        paid.total_payouts <= paid.total_deposits,
{
}

/// The sum of a sequence of amounts.
pub open spec fn sum_amounts(amounts: Seq<u64>) -> int
    decreases amounts.len(),
{
    if amounts.len() == 0 {
        0
    } else {
        sum_amounts(amounts.drop_last()) + amounts.last()
    }
}

/// After a run of successful payouts, the board's total paid out has grown by
/// exactly the sum of their amounts.
pub proof fn lemma_total_payouts_sum(boards: Seq<BountyBoard>, amounts: Seq<u64>, times: Seq<i64>)
    requires
        boards.len() == amounts.len() + 1,
        times.len() == amounts.len(),
        forall|i: int| 0 <= i < amounts.len() ==> paid_out(#[trigger] boards[i], boards[i + 1], amounts[i], times[i]),
    ensures
        boards.last().total_payouts == boards[0].total_payouts + sum_amounts(amounts),
    decreases amounts.len(),
{
    if amounts.len() > 0 {
        let n = amounts.len() - 1;
        lemma_total_payouts_sum(boards.drop_last(), amounts.drop_last(), times.drop_last());
        assert(paid_out(boards[n], boards[n + 1], amounts[n], times[n]));
    }
}

} // verus!
