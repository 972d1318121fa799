//! The ledger as a mathematical value, and each call as a function on it.
//!
//! The executable ledger is specified against this model: a call returns what
//! the model's outcome function says and leaves the state that the model's
//! transition function gives.

use vstd::prelude::*;
use crate::call::Call;
use crate::error::Error;
use crate::event::Event;
use crate::poll::{AccountId, PollId, PollView};
use crate::rules::{finalize_rule, vote_rule};

verus! {

/// Everything the ledger holds.
pub struct State {
    /// The most recently reconciled value.
    pub off_chain_number: u32,
    /// The identifier that the next poll will get.
    pub next_poll_id: PollId,
    /// The polls, by identifier.
    pub poll_by_id: Map<PollId, PollView>,
    /// The ballots, by poll and voter.
    pub votes: Map<(PollId, AccountId), Seq<u8>>,
    /// One entry per successful call, oldest first.
    pub events: Seq<Event>,
}

impl State {
    /// The ledger before any call: no poll, no ballot, the counter at 1.
    pub open spec fn genesis() -> State {
        State {
            off_chain_number: 0,
            next_poll_id: 1,
            poll_by_id: Map::empty(),
            votes: Map::empty(),
            events: Seq::empty(),
        }
    }

    /// What holds of every reachable ledger: the stored polls are exactly
    /// those with an identifier from 1 up to the counter, each stored under
    /// its own identifier, and every ballot belongs to a stored poll.
    pub open spec fn wf(self) -> bool {
        &&& self.next_poll_id >= 1
        &&& forall|id: PollId|
            self.poll_by_id.contains_key(id) <==> 1 <= id < self.next_poll_id
        &&& forall|id: PollId|
            self.poll_by_id.contains_key(id) ==> (#[trigger] self.poll_by_id[id]).poll_id == id
        &&& forall|id: PollId, who: AccountId|
            self.votes.contains_key((id, who)) ==> self.poll_by_id.contains_key(id)
    }

    /// Whether the counter can still be advanced.
    pub open spec fn has_room(self) -> bool {
        self.next_poll_id < u64::MAX
    }

    /// The ledger after `who` opened a poll: the poll is stored under the
    /// counter's value and is active, and the counter has advanced by one.
    pub open spec fn new_poll(self, who: AccountId, num_items: u8, content: Seq<u8>) -> State
        recommends
            self.has_room(),
    {
        State {
            next_poll_id: (self.next_poll_id + 1) as PollId,
            poll_by_id: self.poll_by_id.insert(
                self.next_poll_id,
                PollView::opened(self.next_poll_id, who, num_items, content),
            ),
            events: self.events.push(Event::PollCreated(who, self.next_poll_id)),
            ..self
        }
    }

    /// The record stored under `poll_id`, if there is one.
    pub open spec fn lookup(self, poll_id: PollId) -> Option<PollView> {
        if self.poll_by_id.contains_key(poll_id) {
            Some(self.poll_by_id[poll_id])
        } else {
            None
        }
    }

    /// Whether `who` may close the poll, and if not, why.
    pub open spec fn finalize_poll_outcome(self, who: AccountId, poll_id: PollId) -> Result<
        (),
        Error,
    > {
        finalize_rule(self.lookup(poll_id), who)
    }

    /// The ledger after `who` asked to close the poll: closed and logged
    /// where that is allowed, untouched where it is not.
    pub open spec fn finalize_poll(self, who: AccountId, poll_id: PollId) -> State {
        if self.finalize_poll_outcome(who, poll_id) is Ok {
            State {
                poll_by_id: self.poll_by_id.insert(
                    poll_id,
                    self.poll_by_id[poll_id].finalized(),
                ),
                events: self.events.push(Event::PollFinalized(poll_id)),
                ..self
            }
        } else {
            self
        }
    }

    /// Whether `who` may cast a ballot on the poll, and if not, why.
    pub open spec fn cast_vote_outcome(self, who: AccountId, poll_id: PollId) -> Result<
        (),
        Error,
    > {
        vote_rule(self.lookup(poll_id), self.votes.contains_key((poll_id, who)))
    }

    /// The ledger after `who` tried to cast `votes` on the poll: the ballot
    /// stored and logged where that is allowed, untouched where it is not.
    pub open spec fn cast_vote(self, who: AccountId, poll_id: PollId, votes: Seq<u8>) -> State {
        if self.cast_vote_outcome(who, poll_id) is Ok {
            State {
                votes: self.votes.insert((poll_id, who), votes),
                events: self.events.push(Event::NewVoteCast(poll_id, who)),
                ..self
            }
        } else {
            self
        }
    }

    /// The ledger after the reconciled value was replaced by `block_no`.
    pub open spec fn update_blockchain_number(self, block_no: u32) -> State {
        State {
            off_chain_number: block_no,
            events: self.events.push(Event::OffChainEvent(block_no)),
            ..self
        }
    }

    /// What dispatching `call` on behalf of `who` reports.
    pub open spec fn outcome(self, who: AccountId, call: Call) -> Result<(), Error> {
        match call {
            Call::NewPoll { .. } => Ok(()),
            Call::FinalizePoll { poll_id } => self.finalize_poll_outcome(who, poll_id),
            Call::CastVote { poll_id, .. } => self.cast_vote_outcome(who, poll_id),
            Call::UpdateBlockchainNumber { .. } => Ok(()),
        }
    }

    /// The ledger after `call` was dispatched on behalf of `who`.
    pub open spec fn apply(self, who: AccountId, call: Call) -> State {
        match call {
            Call::NewPoll { num_items, content } => self.new_poll(who, num_items, content@),
            Call::FinalizePoll { poll_id } => self.finalize_poll(who, poll_id),
            Call::CastVote { poll_id, votes } => self.cast_vote(who, poll_id, votes@),
            Call::UpdateBlockchainNumber { block_no } => self.update_blockchain_number(block_no),
        }
    }

    /// Whether `call` can be dispatched at all: opening a poll needs room in
    /// the counter, every other call can always be dispatched.
    pub open spec fn admits(self, call: Call) -> bool {
        call is NewPoll ==> self.has_room()
    }
}

} // verus!
