use vstd::prelude::*;

use crate::errors::ErrorCode;
use crate::states::{Candidate, Counter, Poll, Registrations, Voter};

verus! {

/// What `create_poll` decides and builds: a poll whose window is the inclusive
/// range `[start, end]`, accepted exactly when `start < end`.
pub open spec fn spec_create_poll(id: u64, description: String, start: u64, end: u64) -> Result<
    Poll,
    ErrorCode,
> {
    if start < end {
        Ok(Poll { id, description, start, end })
    } else {
        Err(ErrorCode::InvalidDates)
    }
}

/// The candidate record that a successful registration persists: the vote
/// tally starts at zero and the registration flag is set.
pub open spec fn spec_new_candidate(poll_id: u64, cid: u64, name: String) -> Candidate {
    Candidate { poll_id, cid, name, votes: 0, has_registered: true }
}

/// The outcome of the voting engine's precondition checks, in their fixed
/// order: candidate registered and scoped to this poll, then no receipt yet
/// for this voter, then the trusted clock inside the poll's window.
pub open spec fn spec_vote_check(
    poll: Poll,
    candidate: Candidate,
    voter: Voter,
    poll_id: u64,
    now: u64,
) -> Result<(), ErrorCode> {
    if !candidate.has_registered || candidate.poll_id != poll_id {
        Err(ErrorCode::CandidateNotRegistered)
    } else if voter.has_voted {
        Err(ErrorCode::VoterAlreadyVoted)
    } else if now < poll.start || now > poll.end {
        Err(ErrorCode::PollNotActive)
    } else {
        Ok(())
    }
}

/// Bootstrap: zero both global counters on the records the host just
/// allocated. The host itself fails the transaction before this runs when
/// either record's fixed address is already occupied.
pub fn initialize(counter: &mut Counter, registrations: &mut Registrations)
    ensures
        final(counter).count == 0,
        final(registrations).count == 0,
{
    counter.count = 0;
    registrations.count = 0;
}

/// Create-Poll: reject `start >= end` with `InvalidDates`, otherwise build the
/// poll record. No bound is placed on the description or the timestamps, and
/// nothing besides the new record is touched.
pub fn create_poll(id: u64, description: String, start: u64, end: u64) -> (r: Result<
    Poll,
    ErrorCode,
>)
    ensures
        r == spec_create_poll(id, description, start, end),
        r is Ok <==> start < end,
{
    if start >= end {
        return Err(ErrorCode::InvalidDates);
    }
    Ok(Poll { id, description, start, end })
}

/// Register-Candidate: build the record that a successful registration
/// persists. Whether an existing record already occupies the candidate's
/// derived address is the record store's decision, made before this runs.
pub fn register_candidate(poll_id: u64, cid: u64, name: String) -> (c: Candidate)
    ensures
        c == spec_new_candidate(poll_id, cid, name),
{
    Candidate { poll_id, cid, name, votes: 0, has_registered: true }
}

/// Vote: check the preconditions in their fixed order (candidate, voter,
/// clock window) and, only when all hold, write the receipt and increment the
/// candidate's tally by exactly one. On any failure nothing is mutated.
///
/// The trusted clock's single reading for this transaction is `now`. The
/// caller keeps the tally below `u64::MAX` on the success path, so the
/// increment cannot wrap around.
pub fn vote(
    poll: &Poll,
    candidate: &mut Candidate,
    voter: &mut Voter,
    poll_id: u64,
    cid: u64,
    now: u64,
) -> (r: Result<(), ErrorCode>)
    requires
        spec_vote_check(*poll, *old(candidate), *old(voter), poll_id, now) is Ok ==> old(
            candidate,
        ).votes < u64::MAX,
    ensures
        r == spec_vote_check(*poll, *old(candidate), *old(voter), poll_id, now),
        r is Ok ==> *final(voter) == (Voter { poll_id, cid, has_voted: true }),
        r is Ok ==> final(candidate).votes == old(candidate).votes + 1,
        r is Ok ==> final(candidate).poll_id == old(candidate).poll_id
            && final(candidate).cid == old(candidate).cid
            && final(candidate).name == old(candidate).name
            && final(candidate).has_registered == old(candidate).has_registered,
        r is Err ==> *final(candidate) == *old(candidate) && *final(voter) == *old(voter),
{
    if !candidate.has_registered || candidate.poll_id != poll_id {
        return Err(ErrorCode::CandidateNotRegistered);
    }
    if voter.has_voted {
        return Err(ErrorCode::VoterAlreadyVoted);
    }
    if now < poll.start || now > poll.end {
        return Err(ErrorCode::PollNotActive);
    }
    voter.poll_id = poll_id;
    voter.cid = cid;
    voter.has_voted = true;

    candidate.votes = candidate.votes + 1;

    Ok(())
}

} // verus!
