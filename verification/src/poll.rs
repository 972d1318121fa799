//! The poll record and the two operations that act on a single record.

use vstd::prelude::*;

verus! {

/// Identifier of a poll: a counter that starts at 1 and only grows.
pub type PollId = u64;

/// Identity of a caller, as established by the host before a call is
/// dispatched. The library only ever compares two of them for equality.
pub type AccountId = u64;

/// A ranked list of item indices, stored as given.
pub type Choices = Vec<u8>;

/// A voting subject with a fixed item count and opaque descriptive content.
#[derive(Clone, Debug, PartialEq, Eq, PartialOrd)]
pub struct Poll {
    /// The identifier under which the poll is stored.
    pub poll_id: PollId,
    /// The account that opened the poll, and the only one that may close it.
    pub proposer: AccountId,
    /// Number of items that can be ranked.
    pub num_items: u8,
    /// Description and items, encoded by the front end.
    pub content: Vec<u8>,
    /// Whether ballots are still accepted.
    pub active: bool,
}

/// What a [`Poll`] is, with its content as a sequence of bytes.
pub struct PollView {
    pub poll_id: PollId,
    pub proposer: AccountId,
    pub num_items: u8,
    pub content: Seq<u8>,
    pub active: bool,
}

impl View for Poll {
    type V = PollView;

    open spec fn view(&self) -> PollView {
        PollView {
            poll_id: self.poll_id,
            proposer: self.proposer,
            num_items: self.num_items,
            content: self.content@,
            active: self.active,
        }
    }
}

impl PollView {
    /// The record of a poll that has just been opened.
    pub open spec fn opened(
        poll_id: PollId,
        proposer: AccountId,
        num_items: u8,
        content: Seq<u8>,
    ) -> PollView {
        PollView { poll_id, proposer, num_items, content, active: true }
    }

    /// The same record, closed to further ballots.
    pub open spec fn finalized(self) -> PollView {
        PollView { active: false, ..self }
    }
}

impl Poll {
    /// Opens a poll: the record holds the arguments as given and is active.
    pub fn new(poll_id: PollId, proposer: AccountId, num_items: u8, content: Vec<u8>) -> (poll:
        Poll)
        ensures
            poll@ == PollView::opened(poll_id, proposer, num_items, content@),
    {
        Poll { poll_id, proposer, num_items, content, active: true }
    }

    /// Closes the poll. Nothing else about the record changes, and closing a
    /// closed poll leaves it closed.
    pub fn finalize(&mut self)
        ensures
            final(self)@ == old(self)@.finalized(),
    {
        self.active = false;
    }
}

} // verus!
