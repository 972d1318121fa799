use rank_choice::error::Error;
use rank_choice::event::Event;
use rank_choice::ledger::RankChoice;

fn sample_content() -> Vec<u8> {
    br#"{"description":"test poll", "items": ["item1", "item2", "item3", "item4"]}"#.to_vec()
}

#[test]
fn it_works_for_default_value() {
    let mut module = RankChoice::new();
    let next_poll_id = module.next_poll_id();
    let content = sample_content();
    assert_eq!(module.new_poll(1, 4, content), next_poll_id);
    let poll = module.poll_by_id(next_poll_id);
    assert!(!&poll.is_none());
    assert_eq!(poll.unwrap().num_items, 4);
    assert_eq!(module.last_event(), Some(Event::PollCreated(next_poll_id, 1)));
}

#[test]
fn it_records_votes_for_a_poll() {
    let mut module = RankChoice::new();
    let poll_id = module.next_poll_id();
    let content = sample_content();
    assert_eq!(module.new_poll(1, 4, content), poll_id);
    let votes = vec![4, 1, 2];
    assert_eq!(module.cast_vote(2, poll_id, votes.clone()), Ok(()));
    let recorded_votes = module.votes(poll_id, 2);
    assert!(!&recorded_votes.is_none());
    assert_eq!(recorded_votes.unwrap(), votes);
    assert_eq!(module.last_event(), Some(Event::NewVoteCast(poll_id, 2)));
}

#[test]
fn it_raises_error_for_duplicate_vote() {
    let mut module = RankChoice::new();
    let poll_id = module.next_poll_id();
    let content = sample_content();
    assert_eq!(module.new_poll(1, 4, content), poll_id);
    let votes = vec![4, 1, 2];
    assert_eq!(module.cast_vote(2, poll_id, votes.clone()), Ok(()));
    let recorded_votes = module.votes(poll_id, 2);
    assert!(!&recorded_votes.is_none());
    assert_eq!(recorded_votes.unwrap(), votes);
    assert_eq!(module.last_event(), Some(Event::NewVoteCast(poll_id, 2)));
    let log_before = module.events().clone();
    let new_votes = vec![4, 1, 2];
    assert_eq!(module.cast_vote(2, poll_id, new_votes), Err(Error::AlreadyVoted));
    assert_eq!(module.events(), &log_before);
    assert_eq!(module.votes(poll_id, 2), Some(votes));
}

#[test]
fn genesis_is_empty_with_counter_at_one() {
    let module = RankChoice::new();
    assert_eq!(module.next_poll_id(), 1);
    assert_eq!(module.off_chain_number(), 0);
    assert_eq!(module.poll_by_id(0), None);
    assert_eq!(module.poll_by_id(1), None);
    assert_eq!(module.votes(1, 1), None);
    assert_eq!(module.last_event(), None);
    assert!(module.events().is_empty());
}

#[test]
fn new_poll_returns_counter_and_advances_it_by_one() {
    let mut module = RankChoice::new();
    for expected in 1..=5u64 {
        assert_eq!(module.next_poll_id(), expected);
        assert_eq!(module.new_poll(9, 3, vec![expected as u8]), expected);
        assert_eq!(module.next_poll_id(), expected + 1);
    }
    for id in 1..=5u64 {
        let poll = module.poll_by_id(id).unwrap();
        assert_eq!(poll.poll_id, id);
        assert_eq!(poll.proposer, 9);
        assert_eq!(poll.num_items, 3);
        assert_eq!(poll.content, vec![id as u8]);
        assert!(poll.active);
    }
    assert_eq!(module.poll_by_id(6), None);
}

#[test]
fn new_poll_stores_content_and_item_count_unexamined() {
    let mut module = RankChoice::new();
    let id = module.new_poll(7, 0, Vec::new());
    let poll = module.poll_by_id(id).unwrap();
    assert_eq!(poll.num_items, 0);
    assert!(poll.content.is_empty());
    assert!(poll.active);
    let id = module.new_poll(7, 255, vec![0xff, 0x00, 0x7b]);
    let poll = module.poll_by_id(id).unwrap();
    assert_eq!(poll.num_items, 255);
    assert_eq!(poll.content, vec![0xff, 0x00, 0x7b]);
}

#[test]
fn full_scenario() {
    let (a, b, c) = (10u64, 20u64, 30u64);
    let mut module = RankChoice::new();
    let id = module.new_poll(a, 4, sample_content());
    assert_eq!(id, 1);
    assert_eq!(module.cast_vote(b, 1, vec![4, 1, 2]), Ok(()));
    assert_eq!(module.votes(1, b), Some(vec![4, 1, 2]));
    assert_eq!(module.cast_vote(b, 1, vec![1, 2, 3]), Err(Error::AlreadyVoted));
    assert_eq!(module.votes(1, b), Some(vec![4, 1, 2]));
    assert_eq!(module.finalize_poll(a, 1), Ok(()));
    assert_eq!(module.poll_by_id(1).unwrap().active, false);
    assert_eq!(module.cast_vote(c, 1, vec![1]), Err(Error::PollNotActive));
    assert_eq!(module.votes(1, c), None);
    assert_eq!(
        module.events(),
        &vec![Event::PollCreated(a, 1), Event::NewVoteCast(1, b), Event::PollFinalized(1)]
    );
}

#[test]
fn cast_vote_on_unknown_poll_fails_for_every_voter() {
    let mut module = RankChoice::new();
    for who in [0u64, 1, 2, u64::MAX] {
        assert_eq!(module.cast_vote(who, 1, vec![1]), Err(Error::NoSuchPoll));
        assert_eq!(module.cast_vote(who, 0, vec![1]), Err(Error::NoSuchPoll));
        assert_eq!(module.cast_vote(who, u64::MAX, vec![1]), Err(Error::NoSuchPoll));
    }
    module.new_poll(1, 2, vec![]);
    assert_eq!(module.cast_vote(1, 2, vec![1]), Err(Error::NoSuchPoll));
    assert_eq!(module.cast_vote(1, 0, vec![1]), Err(Error::NoSuchPoll));
    assert_eq!(module.events().len(), 1);
    assert_eq!(module.votes(2, 1), None);
}

#[test]
fn cast_vote_on_closed_poll_fails_whatever_the_voting_history() {
    let mut module = RankChoice::new();
    let id = module.new_poll(1, 3, vec![]);
    assert_eq!(module.cast_vote(2, id, vec![0, 1]), Ok(()));
    assert_eq!(module.finalize_poll(1, id), Ok(()));
    // one that has voted, one that has not, and the proposer
    assert_eq!(module.cast_vote(2, id, vec![1, 0]), Err(Error::PollNotActive));
    assert_eq!(module.cast_vote(3, id, vec![1, 0]), Err(Error::PollNotActive));
    assert_eq!(module.cast_vote(1, id, vec![1, 0]), Err(Error::PollNotActive));
    assert_eq!(module.votes(id, 2), Some(vec![0, 1]));
    assert_eq!(module.votes(id, 3), None);
    assert_eq!(module.last_event(), Some(Event::PollFinalized(id)));
}

#[test]
fn each_voter_votes_once_per_poll() {
    let mut module = RankChoice::new();
    let first = module.new_poll(1, 3, vec![]);
    let second = module.new_poll(1, 3, vec![]);
    assert_eq!(module.cast_vote(5, first, vec![2]), Ok(()));
    assert_eq!(module.cast_vote(6, first, vec![1]), Ok(()));
    assert_eq!(module.cast_vote(5, second, vec![0]), Ok(()));
    // other calls in between do not reopen the ballot
    module.new_poll(5, 1, vec![]);
    module.update_blockchain_number(5, 99);
    assert_eq!(module.finalize_poll(1, second), Ok(()));
    assert_eq!(module.cast_vote(5, first, vec![0]), Err(Error::AlreadyVoted));
    assert_eq!(module.cast_vote(5, first, vec![2]), Err(Error::AlreadyVoted));
    assert_eq!(module.cast_vote(6, first, vec![]), Err(Error::AlreadyVoted));
    assert_eq!(module.votes(first, 5), Some(vec![2]));
    assert_eq!(module.votes(first, 6), Some(vec![1]));
    assert_eq!(module.votes(second, 5), Some(vec![0]));
    assert_eq!(module.votes(second, 6), None);
}

#[test]
fn ballots_are_kept_apart_by_poll_and_voter() {
    let mut module = RankChoice::new();
    let first = module.new_poll(1, 3, vec![]);
    let second = module.new_poll(1, 3, vec![]);
    assert_eq!((first, second), (1, 2));
    // poll 1 by voter 2 is not poll 2 by voter 1
    assert_eq!(module.cast_vote(2, 1, vec![12]), Ok(()));
    assert_eq!(module.votes(2, 1), None);
    assert_eq!(module.cast_vote(1, 2, vec![21]), Ok(()));
    assert_eq!(module.votes(1, 2), Some(vec![12]));
    assert_eq!(module.votes(2, 1), Some(vec![21]));
    // voters at the ends of the range
    assert_eq!(module.cast_vote(0, 1, vec![10]), Ok(()));
    assert_eq!(module.cast_vote(u64::MAX, 1, vec![19]), Ok(()));
    assert_eq!(module.votes(2, 0), None);
    assert_eq!(module.cast_vote(0, 2, vec![20]), Ok(()));
    assert_eq!(module.votes(1, 0), Some(vec![10]));
    assert_eq!(module.votes(1, u64::MAX), Some(vec![19]));
    assert_eq!(module.votes(2, 0), Some(vec![20]));
    assert_eq!(module.votes(2, u64::MAX), None);
}

#[test]
fn ballot_is_stored_as_given_without_regard_to_item_count() {
    let mut module = RankChoice::new();
    let id = module.new_poll(1, 2, vec![]);
    // longer than the item count, out of range, repeated, and empty
    assert_eq!(module.cast_vote(2, id, vec![9, 9, 200, 0, 1]), Ok(()));
    assert_eq!(module.cast_vote(3, id, vec![]), Ok(()));
    assert_eq!(module.votes(id, 2), Some(vec![9, 9, 200, 0, 1]));
    assert_eq!(module.votes(id, 3), Some(vec![]));
}

#[test]
fn finalize_poll_checks_existence_then_proposer_then_activity() {
    let mut module = RankChoice::new();
    assert_eq!(module.finalize_poll(1, 1), Err(Error::NoSuchPoll));
    let id = module.new_poll(1, 3, vec![]);
    assert_eq!(module.finalize_poll(2, id), Err(Error::NotAuthorized));
    assert!(module.poll_by_id(id).unwrap().active);
    assert_eq!(module.last_event(), Some(Event::PollCreated(1, id)));
    assert_eq!(module.finalize_poll(1, id), Ok(()));
    assert!(!module.poll_by_id(id).unwrap().active);
    assert_eq!(module.last_event(), Some(Event::PollFinalized(id)));
    // a stranger is told that it is not authorized even when the poll is closed
    assert_eq!(module.finalize_poll(2, id), Err(Error::NotAuthorized));
    assert_eq!(module.finalize_poll(1, id), Err(Error::PollAlreadyFinalized));
    assert_eq!(module.finalize_poll(1, id + 1), Err(Error::NoSuchPoll));
    assert_eq!(module.events().len(), 2);
}

#[test]
fn finalize_poll_changes_only_the_active_flag() {
    let mut module = RankChoice::new();
    let id = module.new_poll(4, 7, vec![1, 2, 3]);
    let other = module.new_poll(4, 8, vec![4]);
    assert_eq!(module.cast_vote(5, id, vec![6]), Ok(()));
    assert_eq!(module.finalize_poll(4, id), Ok(()));
    let poll = module.poll_by_id(id).unwrap();
    assert_eq!(poll.poll_id, id);
    assert_eq!(poll.proposer, 4);
    assert_eq!(poll.num_items, 7);
    assert_eq!(poll.content, vec![1, 2, 3]);
    assert!(!poll.active);
    assert!(module.poll_by_id(other).unwrap().active);
    assert_eq!(module.votes(id, 5), Some(vec![6]));
    assert_eq!(module.next_poll_id(), 3);
}

#[test]
fn closed_poll_stays_closed_after_other_calls() {
    let mut module = RankChoice::new();
    let id = module.new_poll(1, 3, vec![]);
    assert_eq!(module.finalize_poll(1, id), Ok(()));
    let later = module.new_poll(1, 3, vec![]);
    assert_ne!(later, id);
    assert_eq!(module.cast_vote(2, later, vec![1]), Ok(()));
    module.update_blockchain_number(1, 5);
    assert_eq!(module.finalize_poll(1, id), Err(Error::PollAlreadyFinalized));
    assert!(!module.poll_by_id(id).unwrap().active);
    assert_eq!(module.cast_vote(2, id, vec![1]), Err(Error::PollNotActive));
}

#[test]
fn refused_calls_leave_no_trace() {
    let mut module = RankChoice::new();
    let id = module.new_poll(1, 3, vec![7]);
    assert_eq!(module.cast_vote(2, id, vec![1]), Ok(()));
    let log = module.events().clone();
    let poll = module.poll_by_id(id);
    assert_eq!(module.cast_vote(2, id, vec![2]), Err(Error::AlreadyVoted));
    assert_eq!(module.cast_vote(2, id + 1, vec![2]), Err(Error::NoSuchPoll));
    assert_eq!(module.finalize_poll(2, id), Err(Error::NotAuthorized));
    assert_eq!(module.finalize_poll(1, id + 1), Err(Error::NoSuchPoll));
    assert_eq!(module.events(), &log);
    assert_eq!(module.poll_by_id(id), poll);
    assert_eq!(module.votes(id, 2), Some(vec![1]));
    assert_eq!(module.votes(id + 1, 2), None);
    assert_eq!(module.next_poll_id(), id + 1);
    assert_eq!(module.off_chain_number(), 0);
}

#[test]
fn update_blockchain_number_overwrites_and_logs() {
    let mut module = RankChoice::new();
    module.update_blockchain_number(1, 41);
    assert_eq!(module.off_chain_number(), 41);
    assert_eq!(module.last_event(), Some(Event::OffChainEvent(41)));
    module.update_blockchain_number(2, 7);
    assert_eq!(module.off_chain_number(), 7);
    module.update_blockchain_number(2, 7);
    assert_eq!(module.off_chain_number(), 7);
    module.update_blockchain_number(3, u32::MAX);
    assert_eq!(module.off_chain_number(), u32::MAX);
    assert_eq!(
        module.events(),
        &vec![
            Event::OffChainEvent(41),
            Event::OffChainEvent(7),
            Event::OffChainEvent(7),
            Event::OffChainEvent(u32::MAX),
        ]
    );
    assert_eq!(module.next_poll_id(), 1);
}
