//! The calls that the ledger dispatches.

use vstd::prelude::*;
use crate::poll::{Choices, PollId};

verus! {

/// A call together with its arguments, as it travels in a transaction. The
/// identity of the caller is not part of it: the host establishes it.
#[derive(Clone, Debug, PartialEq, Eq)]
pub enum Call {
    /// Open a poll over `num_items` items, described by `content`.
    NewPoll { num_items: u8, content: Vec<u8> },
    /// Close the poll for good.
    FinalizePoll { poll_id: PollId },
    /// Cast a ballot on the poll.
    CastVote { poll_id: PollId, votes: Choices },
    /// Replace the reconciled value.
    UpdateBlockchainNumber { block_no: u32 },
}

} // verus!
