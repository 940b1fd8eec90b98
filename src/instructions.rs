//! The ledger's operations: creating a bounty, claiming it, and paying out.
//! Each one checks everything before it changes anything, so a failed
//! operation leaves every record as it was.
use vstd::prelude::*;

use crate::state::{Address, ErrorCode};

pub mod claim_bounty;
pub mod create_bounty;
pub mod process_payout;

verus! {

/// `Ok(())` where there is no error, else the error.
pub open spec fn outcome(e: Option<ErrorCode>) -> Result<(), ErrorCode> {
    match e {
        Some(e) => Err(e),
        None => Ok(()),
    }
}

/// The view of a found address and bump.
pub open spec fn found_view(d: Option<(Address, u8)>) -> Option<(Seq<u8>, u8)> {
    match d {
        Some((a, b)) => Some((a@, b)),
        None => None,
    }
}

/// The view of a derived custody address.
pub open spec fn custody_view(d: Result<Address, ErrorCode>) -> Option<Seq<u8>> {
    match d {
        Ok(a) => Some(a@),
        Err(_) => None,
    }
}

} // verus!
