//! The executable ledger: one owned value that holds the polls, the ballots,
//! the counter, the reconciled value and the log, and changes only through
//! the calls below.

use std::collections::HashMap;
use vstd::prelude::*;
use crate::call::Call;
use crate::error::Error;
use crate::event::Event;
use crate::poll::{AccountId, Choices, Poll, PollId};
use crate::rules::{check_finalize, check_vote};
use crate::state::State;

verus! {

/// The key under which the ballot of `who` on `poll_id` is stored: the poll
/// in the upper 64 bits, the voter in the lower.
spec fn ballot_key(poll_id: PollId, who: AccountId) -> u128 {
    (poll_id * 0x1_0000_0000_0000_0000 + who) as u128
}

fn key_of(poll_id: PollId, who: AccountId) -> (key: u128)
    ensures
        key == ballot_key(poll_id, who),
{
    (poll_id as u128) * 0x1_0000_0000_0000_0000u128 + (who as u128)
}

/// The ledger. Its fields are private: it is made by [`RankChoice::new`] and
/// changed by the calls alone, so that it is well-formed at all times.
pub struct RankChoice {
    off_chain_number: u32,
    next_poll_id: PollId,
    poll_by_id: HashMap<PollId, Poll>,
    votes: HashMap<u128, Choices>,
    events: Vec<Event>,
}

impl View for RankChoice {
    type V = State;

    closed spec fn view(&self) -> State {
        State {
            off_chain_number: self.off_chain_number,
            next_poll_id: self.next_poll_id,
            poll_by_id: self.poll_by_id@.map_values(|p: Poll| p@),
            votes: Map::new(
                |k: (PollId, AccountId)| self.votes@.contains_key(ballot_key(k.0, k.1)),
                |k: (PollId, AccountId)| self.votes@[ballot_key(k.0, k.1)]@,
            ),
            events: self.events@,
        }
    }
}

impl RankChoice {
    /// Whether the ledger is one that the calls below can have produced.
    pub open spec fn wf(&self) -> bool {
        self@.wf()
    }

    /// The ledger before any call.
    pub fn new() -> (ledger: RankChoice)
        ensures
            ledger.wf(),
            ledger@ == State::genesis(),
    {
        let ledger = RankChoice {
            off_chain_number: 0,
            next_poll_id: 1,
            poll_by_id: HashMap::new(),
            votes: HashMap::new(),
            events: Vec::new(),
        };
        assert(ledger@.poll_by_id =~= Map::empty());
        assert(ledger@.votes =~= Map::empty());
        ledger
    }

    /// The most recently reconciled value.
    pub fn off_chain_number(&self) -> (value: u32)
        ensures
            value == self@.off_chain_number,
    {
        self.off_chain_number
    }

    /// The identifier that the next poll will get.
    pub fn next_poll_id(&self) -> (id: PollId)
        ensures
            id == self@.next_poll_id,
    {
        self.next_poll_id
    }

    /// The poll stored under `poll_id`, if there is one.
    pub fn poll_by_id(&self, poll_id: PollId) -> (found: Option<Poll>)
        ensures
            match found {
                Some(poll) => self@.poll_by_id.contains_key(poll_id) && poll@
                    == self@.poll_by_id[poll_id],
                None => !self@.poll_by_id.contains_key(poll_id),
            },
    {
        match self.poll_by_id.get(&poll_id) {
            Some(poll) => Some(
                Poll {
                    poll_id: poll.poll_id,
                    proposer: poll.proposer,
                    num_items: poll.num_items,
                    content: poll.content.clone(),
                    active: poll.active,
                },
            ),
            None => None,
        }
    }

    /// The ballot that `who` cast on `poll_id`, if there is one.
    pub fn votes(&self, poll_id: PollId, who: AccountId) -> (found: Option<Choices>)
        ensures
            match found {
                Some(choices) => self@.votes.contains_key((poll_id, who)) && choices@
                    == self@.votes[(poll_id, who)],
                None => !self@.votes.contains_key((poll_id, who)),
            },
    {
        let key: u128 = key_of(poll_id, who);
        match self.votes.get(&key) {
            Some(choices) => Some(choices.clone()),
            None => None,
        }
    }

    /// The log: one entry per successful call, oldest first.
    pub fn events(&self) -> (log: &Vec<Event>)
        ensures
            log@ == self@.events,
    {
        &self.events
    }

    /// The entry that the latest successful call left in the log.
    pub fn last_event(&self) -> (last: Option<Event>)
        ensures
            match last {
                Some(event) => self@.events.len() > 0 && event == self@.events.last(),
                None => self@.events.len() == 0,
            },
    {
        let n: usize = self.events.len();
        if n == 0 {
            None
        } else {
            Some(self.events[n - 1])
        }
    }

    /// Opens a poll on behalf of `who` and returns its identifier, which is
    /// the counter's value before the call. The counter advances by one, the
    /// poll is stored as given and active, and `PollCreated` is logged.
    ///
    /// Neither `num_items` nor `content` is examined.
    pub fn new_poll(&mut self, who: AccountId, num_items: u8, content: Vec<u8>) -> (poll_id:
        PollId)
        requires
            old(self).wf(),
            old(self)@.has_room(),
        ensures
            final(self).wf(),
            poll_id == old(self)@.next_poll_id,
            final(self)@ == old(self)@.new_poll(who, num_items, content@),
            final(self)@.next_poll_id == old(self)@.next_poll_id + 1,
            final(self)@.poll_by_id[poll_id].active,
    {
        let poll_id: PollId = self.next_poll_id;
        let poll = Poll::new(poll_id, who, num_items, content);
        self.poll_by_id.insert(poll_id, poll);
        self.next_poll_id = poll_id + 1;
        self.events.push(Event::PollCreated(who, poll_id));
        proof {
            assert(self@.poll_by_id =~= old(self)@.new_poll(who, num_items, content@).poll_by_id);
            assert(self@.votes =~= old(self)@.votes);
        }
        poll_id
    }

    /// Closes the poll on behalf of `who`.
    ///
    /// Fails with `NoSuchPoll` if no poll is stored under `poll_id`, else
    /// with `NotAuthorized` if `who` is not its proposer, else with
    /// `PollAlreadyFinalized` if it is closed already; the ledger is then
    /// unchanged. Otherwise the poll is closed and `PollFinalized` is logged.
    pub fn finalize_poll(&mut self, who: AccountId, poll_id: PollId) -> (result: Result<
        (),
        Error,
    >)
        requires
            old(self).wf(),
        ensures
            final(self).wf(),
            result == old(self)@.finalize_poll_outcome(who, poll_id),
            final(self)@ == old(self)@.finalize_poll(who, poll_id),
            result is Err ==> final(self)@ == old(self)@,
            result is Ok ==> !final(self)@.poll_by_id[poll_id].active,
    {
        let checked = check_finalize(self.poll_by_id.get(&poll_id), who);
        if checked.is_err() {
            return checked;
        }
        if let Some(mut poll) = self.poll_by_id.remove(&poll_id) {
            poll.finalize();
            self.poll_by_id.insert(poll_id, poll);
        }
        self.events.push(Event::PollFinalized(poll_id));
        proof {
            assert(self@.poll_by_id =~= old(self)@.finalize_poll(who, poll_id).poll_by_id);
            assert(self@.votes =~= old(self)@.votes);
        }
        Ok(())
    }

    /// Casts the ballot `votes` of `who` on the poll.
    ///
    /// Fails with `NoSuchPoll` if no poll is stored under `poll_id`, else
    /// with `PollNotActive` if it is closed, else with `AlreadyVoted` if
    /// `who` has a ballot on it already; the ledger is then unchanged.
    /// Otherwise the ballot is stored as given and `NewVoteCast` is logged.
    ///
    /// The ballot is not held against the poll's item count.
    pub fn cast_vote(&mut self, who: AccountId, poll_id: PollId, votes: Choices) -> (result:
        Result<(), Error>)
        requires
            old(self).wf(),
        ensures
            final(self).wf(),
            result == old(self)@.cast_vote_outcome(who, poll_id),
            final(self)@ == old(self)@.cast_vote(who, poll_id, votes@),
            result is Err ==> final(self)@ == old(self)@,
            result is Ok ==> final(self)@.votes.contains_key((poll_id, who))
                && final(self)@.votes[(poll_id, who)] == votes@,
    {
        let key: u128 = key_of(poll_id, who);
        let has_voted = self.votes.contains_key(&key);
        let checked = check_vote(self.poll_by_id.get(&poll_id), has_voted);
        if checked.is_err() {
            return checked;
        }
        self.votes.insert(key, votes);
        self.events.push(Event::NewVoteCast(poll_id, who));
        proof {
            assert(self@.poll_by_id =~= old(self)@.poll_by_id);
            assert(self@.votes =~= old(self)@.cast_vote(who, poll_id, votes@).votes);
        }
        Ok(())
    }

    /// Replaces the reconciled value by `block_no`, whoever calls and
    /// whatever it was before, and logs `OffChainEvent`.
    pub fn update_blockchain_number(&mut self, who: AccountId, block_no: u32)
        requires
            old(self).wf(),
        ensures
            final(self).wf(),
            final(self)@ == old(self)@.update_blockchain_number(block_no),
            final(self)@.off_chain_number == block_no,
    {
        self.off_chain_number = block_no;
        self.events.push(Event::OffChainEvent(block_no));
        proof {
            assert(self@.poll_by_id =~= old(self)@.poll_by_id);
            assert(self@.votes =~= old(self)@.votes);
        }
    }

    /// Dispatches `call` on behalf of `who`: reports what the call reports
    /// and leaves the ledger as the call leaves it.
    pub fn dispatch(&mut self, who: AccountId, call: Call) -> (result: Result<(), Error>)
        requires
            old(self).wf(),
            old(self)@.admits(call),
        ensures
            final(self).wf(),
            result == old(self)@.outcome(who, call),
            final(self)@ == old(self)@.apply(who, call),
            result is Err ==> final(self)@ == old(self)@,
    {
        match call {
            Call::NewPoll { num_items, content } => {
                self.new_poll(who, num_items, content);
                Ok(())
            },
            Call::FinalizePoll { poll_id } => self.finalize_poll(who, poll_id),
            Call::CastVote { poll_id, votes } => self.cast_vote(who, poll_id, votes),
            Call::UpdateBlockchainNumber { block_no } => {
                self.update_blockchain_number(who, block_no);
                Ok(())
            },
        }
    }
}

} // verus!
