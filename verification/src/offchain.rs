//! The decisions of the reconciliation cycle that runs once per block,
//! outside the ledger.
//!
//! A cycle cannot touch the ledger. All it can do is propose a call, which
//! the host signs with a local account and submits to the transaction pool;
//! if the transaction is later included, the call is dispatched like any
//! other. The host performs the signing and the submission and reports back;
//! what to submit and what the report means is decided here.

use vstd::prelude::*;
use crate::call::Call;
use crate::error::Error;

verus! {

/// The value that the cycle at `block_number` proposes: the block number
/// itself where it fits in 32 bits, and zero where it does not.
pub open spec fn candidate(block_number: u64) -> u32 {
    if block_number <= u32::MAX {
        block_number as u32
    } else {
        0
    }
}

/// What the host's report of a cycle means: no report at all says that no
/// local account could sign, a failed submission says that the pool did not
/// take the transaction, and a successful one ends the cycle well.
pub open spec fn verdict(report: Option<Result<(), ()>>) -> Result<(), Error> {
    match report {
        None => Err(Error::NoLocalAcctForSigning),
        Some(Err(_)) => Err(Error::OffChainSignedTxError),
        Some(Ok(_)) => Ok(()),
    }
}

/// Computes the value that the cycle at `block_number` proposes.
pub fn candidate_value(block_number: u64) -> (value: u32)
    ensures
        value == candidate(block_number),
{
    if block_number <= 0xffff_ffff {
        block_number as u32
    } else {
        0
    }
}

/// Opens the cycle at `block_number`: returns the call that the host is to
/// sign and submit, which replaces the reconciled value by the candidate.
pub fn propose(block_number: u64) -> (call: Call)
    ensures
        call == (Call::UpdateBlockchainNumber { block_no: candidate(block_number) }),
{
    Call::UpdateBlockchainNumber { block_no: candidate_value(block_number) }
}

/// Closes a cycle on the host's `report`: `None` where no local account was
/// found to sign, else what the submission to the pool returned. Either
/// failure only ends the cycle; nothing is retried.
pub fn conclude(report: Option<Result<(), ()>>) -> (result: Result<(), Error>)
    ensures
        result == verdict(report),
{
    match report {
        None => Err(Error::NoLocalAcctForSigning),
        Some(Err(_)) => Err(Error::OffChainSignedTxError),
        Some(Ok(_)) => Ok(()),
    }
}

} // verus!
