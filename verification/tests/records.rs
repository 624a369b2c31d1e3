use votee::errors::ErrorCode;
use votee::instructions;
use votee::states::{Candidate, Counter, Poll, Registrations, Voter};

#[test]
fn initialize_zeroes_both_counters() {
    let mut counter = Counter { count: 41 };
    let mut registrations = Registrations { count: 7 };
    instructions::initialize(&mut counter, &mut registrations);
    assert_eq!(counter.count, 0);
    assert_eq!(registrations.count, 0);
}

#[test]
fn create_poll_builds_the_record_or_rejects_the_dates() {
    let ok = instructions::create_poll(3, String::from("described"), 100, 200);
    match ok {
        Ok(poll) => {
            assert_eq!(poll.id, 3);
            assert_eq!(poll.description, "described");
            assert_eq!(poll.start, 100);
            assert_eq!(poll.end, 200);
        },
        Err(_) => panic!("a proper window must be accepted"),
    }
    assert!(matches!(
        instructions::create_poll(3, String::from("x"), 200, 200),
        Err(ErrorCode::InvalidDates)
    ));
    assert!(matches!(
        instructions::create_poll(3, String::from("x"), 201, 200),
        Err(ErrorCode::InvalidDates)
    ));
}

#[test]
fn register_candidate_builds_a_zeroed_registered_record() {
    let c = instructions::register_candidate(4, 9, String::from("name"));
    assert_eq!(c.poll_id, 4);
    assert_eq!(c.cid, 9);
    assert_eq!(c.name, "name");
    assert_eq!(c.votes, 0);
    assert!(c.has_registered);
}

fn sample_poll() -> Poll {
    Poll { id: 1, description: String::from("p"), start: 100, end: 200 }
}

fn sample_candidate() -> Candidate {
    Candidate { poll_id: 1, cid: 5, name: String::from("c"), votes: 0, has_registered: true }
}

fn blank_voter() -> Voter {
    Voter { poll_id: 0, cid: 0, has_voted: false }
}

#[test]
fn vote_rejects_an_unregistered_candidate_record() {
    let poll = sample_poll();
    let mut candidate = sample_candidate();
    candidate.has_registered = false;
    let mut voter = blank_voter();
    let r = instructions::vote(&poll, &mut candidate, &mut voter, 1, 5, 150);
    assert!(matches!(r, Err(ErrorCode::CandidateNotRegistered)));
    assert_eq!(candidate.votes, 0);
    assert!(!voter.has_voted);
}

#[test]
fn vote_rejects_a_candidate_of_another_poll() {
    let poll = sample_poll();
    let mut candidate = sample_candidate();
    candidate.poll_id = 2;
    let mut voter = blank_voter();
    let r = instructions::vote(&poll, &mut candidate, &mut voter, 1, 5, 150);
    assert!(matches!(r, Err(ErrorCode::CandidateNotRegistered)));
    assert_eq!(candidate.votes, 0);
    assert!(!voter.has_voted);
}

#[test]
fn vote_rejects_a_used_receipt() {
    let poll = sample_poll();
    let mut candidate = sample_candidate();
    let mut voter = Voter { poll_id: 1, cid: 5, has_voted: true };
    let r = instructions::vote(&poll, &mut candidate, &mut voter, 1, 5, 150);
    assert!(matches!(r, Err(ErrorCode::VoterAlreadyVoted)));
    assert_eq!(candidate.votes, 0);
}

#[test]
fn vote_rejects_a_clock_outside_the_window() {
    let poll = sample_poll();
    let mut candidate = sample_candidate();
    let mut voter = blank_voter();
    let early = instructions::vote(&poll, &mut candidate, &mut voter, 1, 5, 99);
    assert!(matches!(early, Err(ErrorCode::PollNotActive)));
    let late = instructions::vote(&poll, &mut candidate, &mut voter, 1, 5, 201);
    assert!(matches!(late, Err(ErrorCode::PollNotActive)));
    assert_eq!(candidate.votes, 0);
    assert!(!voter.has_voted);
}

#[test]
fn vote_writes_the_receipt_and_counts_exactly_one() {
    let poll = sample_poll();
    let mut candidate = sample_candidate();
    candidate.votes = 10;
    let mut voter = blank_voter();
    let r = instructions::vote(&poll, &mut candidate, &mut voter, 1, 5, 100);
    assert!(matches!(r, Ok(())));
    assert_eq!(candidate.votes, 11);
    assert_eq!(voter.poll_id, 1);
    assert_eq!(voter.cid, 5);
    assert!(voter.has_voted);
}

#[test]
fn error_messages_match_their_variants() {
    assert_eq!(ErrorCode::InvalidDates.message(), "Start date must be before end date");
    assert_eq!(ErrorCode::PollNotFound.message(), "Poll not found");
    assert_eq!(ErrorCode::CandidateAlreadyRegistered.message(), "Candidate already registered");
    assert_eq!(ErrorCode::CandidateNotRegistered.message(), "Candidate is not in the poll");
    assert_eq!(ErrorCode::VoterAlreadyVoted.message(), "Voter has already voted");
    assert_eq!(ErrorCode::PollNotActive.message(), "Poll is not currently active");
}
