//! What holds of the ledger over whole histories of calls.
//!
//! A history is a sequence of calls, each with its caller, dispatched one
//! after the other. Every statement here is proved from the model alone, so
//! it holds of the executable ledger, whose calls are specified against it.

use vstd::prelude::*;
use crate::call::Call;
use crate::error::Error;
use crate::event::Event;
use crate::offchain::candidate;
use crate::poll::{AccountId, PollId};
use crate::state::State;

verus! {

/// The ledger after the calls of `trace` were dispatched on `start`, first
/// to last. A refused call leaves the ledger as it was.
pub open spec fn run(start: State, trace: Seq<(AccountId, Call)>) -> State
    decreases trace.len(),
{
    if trace.len() == 0 {
        start
    } else {
        run(start, trace.drop_last()).apply(trace.last().0, trace.last().1)
    }
}

/// How many polls the calls of `trace` open.
pub open spec fn polls_opened(trace: Seq<(AccountId, Call)>) -> nat
    decreases trace.len(),
{
    if trace.len() == 0 {
        0
    } else {
        polls_opened(trace.drop_last()) + if trace.last().1 is NewPoll {
            1nat
        } else {
            0nat
        }
    }
}

/// Whether the counter of `start` has room for every poll that `trace`
/// opens.
pub open spec fn fits(start: State, trace: Seq<(AccountId, Call)>) -> bool {
    start.next_poll_id + polls_opened(trace) <= u64::MAX
}

/// A call that can be dispatched leaves a well-formed ledger well-formed.
pub proof fn call_preserves_wf(state: State, who: AccountId, call: Call)
    requires
        state.wf(),
        state.admits(call),
    ensures
        state.apply(who, call).wf(),
{
}

/// A refused call leaves no trace: the ledger after it is the ledger before
/// it, log included.
pub proof fn refused_call_changes_nothing(state: State, who: AccountId, call: Call)
    requires
        state.outcome(who, call) is Err,
    ensures
        state.apply(who, call) == state,
{
}

/// A successful call appends exactly one entry to the log and touches no
/// earlier entry.
pub proof fn accepted_call_logs_once(state: State, who: AccountId, call: Call)
    requires
        state.outcome(who, call) is Ok,
    ensures
        state.apply(who, call).events.len() == state.events.len() + 1,
        state.apply(who, call).events.drop_last() == state.events,
{
    assert(state.apply(who, call).events.drop_last() =~= state.events);
}

/// Along a history that the counter has room for, the ledger stays
/// well-formed and the counter advances by one for each poll opened, so
/// identifiers are handed out in strictly increasing order.
pub proof fn history_preserves_wf(start: State, trace: Seq<(AccountId, Call)>)
    requires
        start.wf(),
        fits(start, trace),
    ensures
        run(start, trace).wf(),
        run(start, trace).next_poll_id == start.next_poll_id + polls_opened(trace),
    decreases trace.len(),
{
    if trace.len() > 0 {
        history_preserves_wf(start, trace.drop_last());
        call_preserves_wf(run(start, trace.drop_last()), trace.last().0, trace.last().1);
    }
}

/// The identifier that the next poll gets is not in use, and every
/// identifier in use is smaller.
pub proof fn next_poll_id_is_fresh(state: State)
    requires
        state.wf(),
    ensures
        !state.poll_by_id.contains_key(state.next_poll_id),
        forall|id: PollId| state.poll_by_id.contains_key(id) ==> id < state.next_poll_id,
{
}

/// A poll is never deleted, and its identifier, proposer, item count and
/// content never change, whatever is called afterwards.
pub proof fn poll_is_permanent(start: State, trace: Seq<(AccountId, Call)>, poll_id: PollId)
    requires
        start.wf(),
        fits(start, trace),
        start.poll_by_id.contains_key(poll_id),
    ensures
        run(start, trace).poll_by_id.contains_key(poll_id),
        run(start, trace).poll_by_id[poll_id].poll_id == poll_id,
        run(start, trace).poll_by_id[poll_id].proposer == start.poll_by_id[poll_id].proposer,
        run(start, trace).poll_by_id[poll_id].num_items == start.poll_by_id[poll_id].num_items,
        run(start, trace).poll_by_id[poll_id].content == start.poll_by_id[poll_id].content,
        run(start, trace).poll_by_id[poll_id].active ==> start.poll_by_id[poll_id].active,
    decreases trace.len(),
{
    if trace.len() > 0 {
        poll_is_permanent(start, trace.drop_last(), poll_id);
        history_preserves_wf(start, trace.drop_last());
    }
}

/// A ballot is never deleted nor overwritten, and the poll it was cast on
/// stays in the ledger, whatever is called afterwards.
pub proof fn ballot_is_permanent(
    start: State,
    trace: Seq<(AccountId, Call)>,
    poll_id: PollId,
    who: AccountId,
)
    requires
        start.poll_by_id.contains_key(poll_id),
        start.votes.contains_key((poll_id, who)),
    ensures
        run(start, trace).poll_by_id.contains_key(poll_id),
        run(start, trace).votes.contains_key((poll_id, who)),
        run(start, trace).votes[(poll_id, who)] == start.votes[(poll_id, who)],
    decreases trace.len(),
{
    if trace.len() > 0 {
        ballot_is_permanent(start, trace.drop_last(), poll_id, who);
    }
}

/// A ballot is accepted exactly when the poll exists, is active, and the
/// voter has no ballot on it yet.
pub proof fn ballot_accepted_iff(state: State, who: AccountId, poll_id: PollId)
    ensures
        state.cast_vote_outcome(who, poll_id) is Ok <==> state.poll_by_id.contains_key(poll_id)
            && state.poll_by_id[poll_id].active && !state.votes.contains_key((poll_id, who)),
{
}

/// Once a voter's ballot on a poll has been accepted, no later attempt of
/// that voter on that poll is: after any history, the attempt is refused
/// and the first ballot stands. The refusal is `AlreadyVoted` as long as the
/// poll is active, and `PollNotActive` once it has been closed.
pub proof fn vote_counts_once(
    before: State,
    who: AccountId,
    poll_id: PollId,
    votes: Seq<u8>,
    trace: Seq<(AccountId, Call)>,
)
    requires
        before.cast_vote_outcome(who, poll_id) is Ok,
    ensures
        ({
            let later = run(before.cast_vote(who, poll_id, votes), trace);
            &&& later.votes.contains_key((poll_id, who))
            &&& later.votes[(poll_id, who)] == votes
            &&& later.poll_by_id.contains_key(poll_id)
            &&& later.cast_vote_outcome(who, poll_id) == Err::<(), Error>(
                if later.poll_by_id[poll_id].active {
                    Error::AlreadyVoted
                } else {
                    Error::PollNotActive
                },
            )
            &&& forall|again: Seq<u8>| later.cast_vote(who, poll_id, again) == later
        }),
{
    ballot_is_permanent(before.cast_vote(who, poll_id, votes), trace, poll_id, who);
}

/// Whether `call` casts a ballot on `poll_id`.
pub open spec fn votes_on(call: Call, poll_id: PollId) -> bool {
    match call {
        Call::CastVote { poll_id: on, .. } => on == poll_id,
        _ => false,
    }
}

/// Whether `call` asks to close `poll_id`.
pub open spec fn closes(call: Call, poll_id: PollId) -> bool {
    match call {
        Call::FinalizePoll { poll_id: on } => on == poll_id,
        _ => false,
    }
}

/// How many ballots of `who` on `poll_id` are accepted while the calls of
/// `trace` are dispatched on `start`.
pub open spec fn ballots_accepted(
    start: State,
    trace: Seq<(AccountId, Call)>,
    who: AccountId,
    poll_id: PollId,
) -> nat
    decreases trace.len(),
{
    if trace.len() == 0 {
        0
    } else {
        let earlier = trace.drop_last();
        let (caller, call) = trace.last();
        ballots_accepted(start, earlier, who, poll_id) + if caller == who && votes_on(
            call,
            poll_id,
        ) && run(start, earlier).outcome(caller, call) is Ok {
            1nat
        } else {
            0nat
        }
    }
}

/// In any history, from any ledger, at most one ballot of a voter on a poll
/// is accepted, and none if the ledger already held one. Where one was
/// accepted, the ledger holds a ballot of that voter on that poll at the
/// end.
pub proof fn at_most_one_ballot_is_accepted(
    start: State,
    trace: Seq<(AccountId, Call)>,
    who: AccountId,
    poll_id: PollId,
)
    ensures
        ballots_accepted(start, trace, who, poll_id) <= 1,
        start.votes.contains_key((poll_id, who)) ==> ballots_accepted(start, trace, who, poll_id)
            == 0,
        start.votes.contains_key((poll_id, who)) || ballots_accepted(start, trace, who, poll_id)
            == 1 <==> run(start, trace).votes.contains_key((poll_id, who)),
    decreases trace.len(),
{
    if trace.len() > 0 {
        at_most_one_ballot_is_accepted(start, trace.drop_last(), who, poll_id);
    }
}

/// Straight after an accepted ballot, the same voter's next attempt on the
/// same poll is refused with `AlreadyVoted`.
pub proof fn second_vote_is_refused(
    before: State,
    who: AccountId,
    poll_id: PollId,
    votes: Seq<u8>,
)
    requires
        before.cast_vote_outcome(who, poll_id) is Ok,
    ensures
        before.cast_vote(who, poll_id, votes).cast_vote_outcome(who, poll_id) == Err::<(), Error>(
            Error::AlreadyVoted,
        ),
{
}

/// A poll is closed exactly when it exists, the caller is its proposer, and
/// it is active.
pub proof fn closure_accepted_iff(state: State, who: AccountId, poll_id: PollId)
    ensures
        state.finalize_poll_outcome(who, poll_id) is Ok <==> state.poll_by_id.contains_key(
            poll_id,
        ) && state.poll_by_id[poll_id].proposer == who && state.poll_by_id[poll_id].active,
{
}

/// Closing is final. Once the proposer has closed a poll, it is inactive
/// after any history, a further attempt of the proposer to close it is
/// refused with `PollAlreadyFinalized`, and every ballot on it is refused
/// with `PollNotActive`.
pub proof fn closed_poll_stays_closed(
    before: State,
    who: AccountId,
    poll_id: PollId,
    trace: Seq<(AccountId, Call)>,
)
    requires
        before.wf(),
        before.finalize_poll_outcome(who, poll_id) is Ok,
        fits(before, trace),
    ensures
        ({
            let later = run(before.finalize_poll(who, poll_id), trace);
            &&& later.poll_by_id.contains_key(poll_id)
            &&& !later.poll_by_id[poll_id].active
            &&& later.finalize_poll_outcome(who, poll_id) == Err::<(), Error>(
                Error::PollAlreadyFinalized,
            )
            &&& forall|voter: AccountId| #[trigger]
                later.cast_vote_outcome(voter, poll_id) == Err::<(), Error>(Error::PollNotActive)
        }),
{
    let closed = before.finalize_poll(who, poll_id);
    call_preserves_wf(before, who, Call::FinalizePoll { poll_id });
    poll_is_permanent(closed, trace, poll_id);
}

/// How many times `poll_id` is closed while the calls of `trace` are
/// dispatched on `start`.
pub open spec fn closures_accepted(
    start: State,
    trace: Seq<(AccountId, Call)>,
    poll_id: PollId,
) -> nat
    decreases trace.len(),
{
    if trace.len() == 0 {
        0
    } else {
        let earlier = trace.drop_last();
        let (caller, call) = trace.last();
        closures_accepted(start, earlier, poll_id) + if closes(call, poll_id) && run(
            start,
            earlier,
        ).outcome(caller, call) is Ok {
            1nat
        } else {
            0nat
        }
    }
}

/// In any history that the counter has room for, a poll is closed at most
/// once, and not at all if it was closed at the start; it is inactive at the
/// end exactly if it was closed at the start or along the way.
pub proof fn poll_is_closed_at_most_once(
    start: State,
    trace: Seq<(AccountId, Call)>,
    poll_id: PollId,
)
    requires
        start.wf(),
        fits(start, trace),
        start.poll_by_id.contains_key(poll_id),
    ensures
        closures_accepted(start, trace, poll_id) <= 1,
        !start.poll_by_id[poll_id].active ==> closures_accepted(start, trace, poll_id) == 0,
        !start.poll_by_id[poll_id].active || closures_accepted(start, trace, poll_id) == 1
            <==> !run(start, trace).poll_by_id[poll_id].active,
    decreases trace.len(),
{
    if trace.len() > 0 {
        poll_is_closed_at_most_once(start, trace.drop_last(), poll_id);
        poll_is_permanent(start, trace.drop_last(), poll_id);
        history_preserves_wf(start, trace.drop_last());
    }
}

/// A ballot on a closed poll is refused with `PollNotActive`, whoever casts
/// it and whether or not that voter has a ballot on the poll, and the
/// ledger is unchanged.
pub proof fn closed_poll_takes_no_ballot(
    state: State,
    who: AccountId,
    poll_id: PollId,
    votes: Seq<u8>,
)
    requires
        state.poll_by_id.contains_key(poll_id),
        !state.poll_by_id[poll_id].active,
    ensures
        state.cast_vote_outcome(who, poll_id) == Err::<(), Error>(Error::PollNotActive),
        state.cast_vote(who, poll_id, votes) == state,
{
}

/// A ballot on an identifier under which no poll is stored is refused with
/// `NoSuchPoll`, whoever casts it, and the ledger is unchanged.
pub proof fn unknown_poll_takes_no_ballot(
    state: State,
    who: AccountId,
    poll_id: PollId,
    votes: Seq<u8>,
)
    requires
        !state.poll_by_id.contains_key(poll_id),
    ensures
        state.cast_vote_outcome(who, poll_id) == Err::<(), Error>(Error::NoSuchPoll),
        state.cast_vote(who, poll_id, votes) == state,
{
}

/// The reconciled value keeps no history: after two replacements only the
/// second value is held, and replacing a value by itself changes nothing
/// but the log.
pub proof fn latest_value_keeps_no_history(state: State, first: u32, second: u32)
    ensures
        state.update_blockchain_number(first).update_blockchain_number(second).off_chain_number
            == second,
        state.update_blockchain_number(second).update_blockchain_number(second) == (State {
            events: state.update_blockchain_number(second).events.push(
                Event::OffChainEvent(second),
            ),
            ..state.update_blockchain_number(second)
        }),
{
}

/// What a reconciliation cycle proposes can always be dispatched, is never
/// refused, and changes nothing in the ledger but the reconciled value and
/// the log: it touches no poll, no ballot and not the counter.
pub proof fn proposal_only_sets_latest_value(state: State, who: AccountId, block_number: u64)
    ensures
        ({
            let call = Call::UpdateBlockchainNumber { block_no: candidate(block_number) };
            &&& state.admits(call)
            &&& state.outcome(who, call) is Ok
            &&& state.apply(who, call).off_chain_number == candidate(block_number)
            &&& state.apply(who, call).next_poll_id == state.next_poll_id
            &&& state.apply(who, call).poll_by_id == state.poll_by_id
            &&& state.apply(who, call).votes == state.votes
        }),
{
}

} // verus!
