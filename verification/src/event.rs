//! What a successful call leaves in the ledger's log.

use vstd::prelude::*;
use crate::poll::{AccountId, PollId};

verus! {

/// One entry of the log. Every successful call appends exactly one.
#[derive(Clone, Copy, Debug, PartialEq, Eq, Structural)]
pub enum Event {
    /// A poll was opened by the account, under the identifier.
    PollCreated(AccountId, PollId),
    /// The poll was closed by its proposer.
    PollFinalized(PollId),
    /// The account cast its ballot on the poll.
    NewVoteCast(PollId, AccountId),
    /// The reconciled value was replaced by this one.
    OffChainEvent(u32),
}

} // verus!
