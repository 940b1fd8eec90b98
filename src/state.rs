//! Records kept by the ledger, and the token accounts they refer to.
use vstd::prelude::*;

verus! {

/// A 32-byte account address or identity.
pub type Address = [u8; 32];

/// Errors reported by every operation of the ledger.
#[derive(Clone, Copy, Debug, PartialEq, Eq, Structural)]
pub enum ErrorCode {
    /// The bounty is not in the state the operation needs.
    InvalidBountyStatus,
    /// The bounty's deadline has passed.
    BountyExpired,
    /// The signer is not the board's administrator.
    Unauthorized,
    /// A checked arithmetic operation would leave the 64-bit range.
    NumericalOverflow,
    /// An account is not bound to the board or to its custody authority.
    InvalidAccountConfig,
    /// The bounty already has a claimant.
    AlreadyClaimed,
    /// A source account holds less than the amount to move.
    InsufficientFunds,
    /// A token account holds another value unit than the board's.
    InvalidTokenAccount,
    /// The bounty address is already in use.
    AlreadyInitialized,
}

/// Lifecycle of a bounty: `Open -> Claimed -> Completed`, or `Open -> Expired`.
#[derive(Clone, Copy, Debug, PartialEq, Eq, Structural)]
pub enum BountyStatus {
    Open,
    Claimed,
    Completed,
    Expired,
}

/// The board: one per deployment, owner of every escrow account.
#[derive(Clone, Copy, Debug)]
pub struct BountyBoard {
    pub admin: Address,
    pub token_mint: Address,
    pub total_bounties: u64,
    /// Cumulative amount deposited into escrow by bounty creation.
    pub total_deposits: u64,
    pub total_payouts: u64,
    pub last_payout: i64,
    pub bump: u8,
}

/// One task's bounty record.
#[derive(Clone, Debug)]
pub struct Bounty {
    pub amount: u64,
    pub github_issue: String,
    pub expires_at: i64,
    pub status: BountyStatus,
    pub claimant: Option<Address>,
    pub bump: u8,
}

/// What the ledger reads of a token account: its value unit, its spending
/// authority and its balance.
#[derive(Clone, Copy, Debug)]
pub struct TokenAccount {
    pub mint: Address,
    pub owner: Address,
    pub amount: u64,
}

impl BountyBoard {
    /// Never more has been paid out than was deposited.
    pub open spec fn wf(&self) -> bool {
        self.total_payouts <= self.total_deposits
    }
}

impl Bounty {
    /// The claimant is set exactly when the bounty has been claimed.
    pub open spec fn wf(&self) -> bool {
        self.claimant.is_some() <==> (self.status == BountyStatus::Claimed
            || self.status == BountyStatus::Completed)
    }
}

/// Byte-wise equality of two addresses.
pub fn addresses_equal(a: &Address, b: &Address) -> (r: bool)
    ensures
        r == (a@ == b@),
{
    let mut i: usize = 0;
    while i < 32
        invariant
            0 <= i <= 32,
            a@.len() == 32,
            b@.len() == 32,
            forall|j: int| 0 <= j < i ==> a@[j] == b@[j],
        decreases 32 - i,
    {
        if a[i] != b[i] {
            return false;
        }
        i = i + 1;
    }
    proof {
        assert(a@ =~= b@);
    }
    true
}

} // verus!
