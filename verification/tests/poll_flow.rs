use votee::errors::{ErrorCode, LedgerError};
use votee::ledger::Ledger;

#[test]
fn bootstrap_creates_zeroed_counters_once() {
    let mut l = Ledger::new();
    let first = l.initialize();
    assert!(matches!(first, Ok(())));
    assert_eq!(l.counter.unwrap().count, 0);
    assert_eq!(l.registrations.unwrap().count, 0);
    let second = l.initialize();
    assert!(matches!(second, Err(LedgerError::AddressInUse)));
    assert_eq!(l.counter.unwrap().count, 0);
    assert_eq!(l.registrations.unwrap().count, 0);
}

#[test]
fn create_poll_succeeds_iff_start_before_end() {
    let mut l = Ledger::new();
    assert!(matches!(l.create_poll(1, String::from("ordered"), 10, 11), Ok(())));
    assert!(matches!(
        l.create_poll(2, String::from("equal"), 10, 10),
        Err(LedgerError::Program(ErrorCode::InvalidDates))
    ));
    assert!(matches!(
        l.create_poll(3, String::from("inverted"), 11, 10),
        Err(LedgerError::Program(ErrorCode::InvalidDates))
    ));
    assert_eq!(l.polls.len(), 1);
    assert_eq!(l.polls[0].id, 1);
    assert_eq!(l.polls[0].start, 10);
    assert_eq!(l.polls[0].end, 11);
}

#[test]
fn create_poll_rejects_an_occupied_address() {
    let mut l = Ledger::new();
    assert!(matches!(l.create_poll(9, String::from("first"), 1, 2), Ok(())));
    assert!(matches!(
        l.create_poll(9, String::from("second"), 3, 4),
        Err(LedgerError::AddressInUse)
    ));
    assert_eq!(l.polls.len(), 1);
}

#[test]
fn identical_polls_under_distinct_ids_are_permitted() {
    let mut l = Ledger::new();
    assert!(matches!(l.create_poll(1, String::from("same"), 5, 6), Ok(())));
    assert!(matches!(l.create_poll(2, String::from("same"), 5, 6), Ok(())));
    assert_eq!(l.polls.len(), 2);
}

#[test]
fn register_twice_fails_the_second_time() {
    let mut l = Ledger::new();
    assert!(matches!(l.create_poll(7, String::from("race"), 100, 200), Ok(())));
    assert!(matches!(l.register_candidate(7, 3, String::from("first name")), Ok(())));
    assert!(matches!(
        l.register_candidate(7, 3, String::from("other name")),
        Err(LedgerError::Program(ErrorCode::CandidateAlreadyRegistered))
    ));
    assert_eq!(l.candidates.len(), 1);
    assert_eq!(l.candidates[0].name, "first name");
    assert_eq!(l.candidates[0].votes, 0);
    assert!(l.candidates[0].has_registered);
}

#[test]
fn register_requires_an_existing_poll() {
    let mut l = Ledger::new();
    assert!(matches!(
        l.register_candidate(42, 1, String::from("early")),
        Err(LedgerError::Program(ErrorCode::PollNotFound))
    ));
    assert_eq!(l.candidates.len(), 0);
}

#[test]
fn register_is_accepted_outside_the_active_window() {
    // Deliberate lenience: the poll's window is never consulted here.
    let mut l = Ledger::new();
    assert!(matches!(l.create_poll(1, String::from("closed"), 100, 200), Ok(())));
    // A vote at 250 shows the poll is closed, yet registration still works.
    assert!(matches!(l.register_candidate(1, 8, String::from("late")), Ok(())));
    assert!(matches!(
        l.vote(1, 8, 55, 250),
        Err(LedgerError::Program(ErrorCode::PollNotActive))
    ));
}

#[test]
fn scenario_vote_counts_once_then_rejects_the_voter() {
    let mut l = Ledger::new();
    assert!(matches!(l.create_poll(1, String::from("A"), 100, 200), Ok(())));
    assert!(matches!(l.register_candidate(1, 1, String::from("X")), Ok(())));
    assert!(matches!(l.vote(1, 1, 77, 150), Ok(())));
    assert_eq!(l.votes_of(1, 1), Some(1));
    assert!(l.has_voted(1, 77));
    assert!(matches!(
        l.vote(1, 1, 77, 160),
        Err(LedgerError::Program(ErrorCode::VoterAlreadyVoted))
    ));
    assert_eq!(l.votes_of(1, 1), Some(1));
    assert_eq!(l.voters.len(), 1);
    assert_eq!(l.voters[0].identity, 77);
    assert_eq!(l.voters[0].voter.poll_id, 1);
    assert_eq!(l.voters[0].voter.cid, 1);
    assert!(l.voters[0].voter.has_voted);
}

#[test]
fn scenario_vote_after_the_window_fails() {
    // The checks run in the order the voting engine fixes: candidate first,
    // then voter, then clock window. With no candidate registered the vote at
    // 250 is rejected for the missing candidate; with one registered, the
    // same late vote is rejected for the closed window.
    let mut l = Ledger::new();
    assert!(matches!(l.create_poll(1, String::from("A"), 100, 200), Ok(())));
    assert!(matches!(
        l.vote(1, 1, 77, 250),
        Err(LedgerError::Program(ErrorCode::CandidateNotRegistered))
    ));
    assert!(matches!(l.register_candidate(1, 1, String::from("X")), Ok(())));
    assert!(matches!(
        l.vote(1, 1, 77, 250),
        Err(LedgerError::Program(ErrorCode::PollNotActive))
    ));
    assert_eq!(l.voters.len(), 0);
    assert_eq!(l.votes_of(1, 1), Some(0));
}

#[test]
fn scenario_inverted_dates_persist_nothing() {
    let mut l = Ledger::new();
    assert!(matches!(
        l.create_poll(1, String::from("A"), 200, 100),
        Err(LedgerError::Program(ErrorCode::InvalidDates))
    ));
    assert_eq!(l.polls.len(), 0);
}

#[test]
fn vote_boundaries_of_the_inclusive_window() {
    let mut l = Ledger::new();
    assert!(matches!(l.create_poll(1, String::from("window"), 100, 200), Ok(())));
    assert!(matches!(l.register_candidate(1, 1, String::from("X")), Ok(())));
    assert!(matches!(
        l.vote(1, 1, 10, 99),
        Err(LedgerError::Program(ErrorCode::PollNotActive))
    ));
    assert!(matches!(l.vote(1, 1, 10, 100), Ok(())));
    assert!(matches!(l.vote(1, 1, 20, 200), Ok(())));
    assert!(matches!(
        l.vote(1, 1, 30, 201),
        Err(LedgerError::Program(ErrorCode::PollNotActive))
    ));
    assert_eq!(l.votes_of(1, 1), Some(2));
}

#[test]
fn vote_needs_a_registered_candidate_of_the_same_poll() {
    let mut l = Ledger::new();
    assert!(matches!(l.create_poll(1, String::from("one"), 100, 200), Ok(())));
    assert!(matches!(l.create_poll(2, String::from("two"), 100, 200), Ok(())));
    assert!(matches!(l.register_candidate(1, 5, String::from("X")), Ok(())));
    // Candidate 5 belongs to poll 1: on poll 2 no record exists at (2, 5).
    assert!(matches!(
        l.vote(2, 5, 77, 150),
        Err(LedgerError::Program(ErrorCode::CandidateNotRegistered))
    ));
    assert!(matches!(l.vote(1, 5, 77, 150), Ok(())));
}

#[test]
fn one_identity_may_vote_on_each_poll_but_once_per_poll() {
    let mut l = Ledger::new();
    assert!(matches!(l.create_poll(1, String::from("one"), 0, 10), Ok(())));
    assert!(matches!(l.create_poll(2, String::from("two"), 0, 10), Ok(())));
    assert!(matches!(l.register_candidate(1, 1, String::from("X")), Ok(())));
    assert!(matches!(l.register_candidate(2, 1, String::from("Y")), Ok(())));
    assert!(matches!(l.vote(1, 1, 77, 5), Ok(())));
    assert!(matches!(l.vote(2, 1, 77, 5), Ok(())));
    assert!(matches!(
        l.vote(2, 1, 77, 6),
        Err(LedgerError::Program(ErrorCode::VoterAlreadyVoted))
    ));
    assert_eq!(l.votes_of(1, 1), Some(1));
    assert_eq!(l.votes_of(2, 1), Some(1));
}

#[test]
fn distinct_identities_each_count() {
    let mut l = Ledger::new();
    assert!(matches!(l.create_poll(1, String::from("tally"), 0, 10), Ok(())));
    assert!(matches!(l.register_candidate(1, 1, String::from("X")), Ok(())));
    assert!(matches!(l.register_candidate(1, 2, String::from("Y")), Ok(())));
    assert!(matches!(l.vote(1, 1, 100, 3), Ok(())));
    assert!(matches!(l.vote(1, 1, 101, 4), Ok(())));
    assert!(matches!(l.vote(1, 2, 102, 5), Ok(())));
    assert_eq!(l.votes_of(1, 1), Some(2));
    assert_eq!(l.votes_of(1, 2), Some(1));
    assert_eq!(l.votes_of(1, 3), None);
    assert!(l.has_voted(1, 100));
    assert!(!l.has_voted(1, 103));
}
