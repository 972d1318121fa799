//! Why a call was refused, or why a reconciliation cycle did nothing.

use vstd::prelude::*;

verus! {

/// The ways in which a call or a reconciliation cycle can fail.
///
/// The first five are reported to the submitter of a call, which then has
/// changed nothing. The last two arise only outside the ledger and never
/// influence its state.
#[derive(Clone, Copy, Debug, PartialEq, Eq, Structural)]
pub enum Error {
    /// No poll is stored under the given identifier.
    NoSuchPoll,
    /// The poll no longer accepts ballots.
    PollNotActive,
    /// The voter has already cast a ballot on this poll.
    AlreadyVoted,
    /// The caller is not the proposer of the poll.
    NotAuthorized,
    /// The poll has been closed before.
    PollAlreadyFinalized,
    /// The transaction pool did not take the signed transaction.
    OffChainSignedTxError,
    /// The key store holds no account that could sign.
    NoLocalAcctForSigning,
}

} // verus!
