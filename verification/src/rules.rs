//! The checks that gate a ballot and a closure, in the order in which they
//! are made. The order decides which error is reported when several
//! conditions fail at once.

use vstd::prelude::*;
use crate::error::Error;
use crate::poll::{AccountId, Poll, PollView};

verus! {

/// Whether a ballot is accepted, given the record found under the poll's
/// identifier (if any) and whether the voter already has a ballot on it:
/// the poll must exist, then be active, then the ballot must be the first.
pub open spec fn vote_rule(poll: Option<PollView>, has_voted: bool) -> Result<(), Error> {
    match poll {
        None => Err(Error::NoSuchPoll),
        Some(poll) => if !poll.active {
            Err(Error::PollNotActive)
        } else if has_voted {
            Err(Error::AlreadyVoted)
        } else {
            Ok(())
        },
    }
}

/// Whether `who` may close a poll, given the record found under the poll's
/// identifier (if any): the poll must exist, then `who` must be its
/// proposer, then it must still be active.
pub open spec fn finalize_rule(poll: Option<PollView>, who: AccountId) -> Result<(), Error> {
    match poll {
        None => Err(Error::NoSuchPoll),
        Some(poll) => if poll.proposer != who {
            Err(Error::NotAuthorized)
        } else if !poll.active {
            Err(Error::PollAlreadyFinalized)
        } else {
            Ok(())
        },
    }
}

/// What a looked-up record is, if one was found.
pub open spec fn found_view(poll: Option<&Poll>) -> Option<PollView> {
    match poll {
        Some(poll) => Some(poll@),
        None => None,
    }
}

/// Decides whether a ballot is accepted on `poll`, the record found under
/// the poll's identifier, from a voter who `has_voted` on it or not.
pub fn check_vote(poll: Option<&Poll>, has_voted: bool) -> (result: Result<(), Error>)
    ensures
        result == vote_rule(found_view(poll), has_voted),
{
    match poll {
        None => Err(Error::NoSuchPoll),
        Some(poll) => {
            if !poll.active {
                Err(Error::PollNotActive)
            } else if has_voted {
                Err(Error::AlreadyVoted)
            } else {
                Ok(())
            }
        },
    }
}

/// Decides whether `who` may close `poll`, the record found under the
/// poll's identifier.
pub fn check_finalize(poll: Option<&Poll>, who: AccountId) -> (result: Result<(), Error>)
    ensures
        result == finalize_rule(found_view(poll), who),
{
    match poll {
        None => Err(Error::NoSuchPoll),
        Some(poll) => {
            if poll.proposer != who {
                Err(Error::NotAuthorized)
            } else if !poll.active {
                Err(Error::PollAlreadyFinalized)
            } else {
                Ok(())
            }
        },
    }
}

} // verus!
