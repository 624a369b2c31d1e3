use vstd::prelude::*;

verus! {

/// The closed taxonomy of rule violations: one variant per precondition that an
/// operation can break. Every variant is a terminal rejection of the requested
/// operation; no partial state change survives a failure.
#[derive(Clone, Copy, Debug, PartialEq, Eq, Structural)]
pub enum ErrorCode {
    InvalidDates,
    PollNotFound,
    CandidateAlreadyRegistered,
    CandidateNotRegistered,
    VoterAlreadyVoted,
    PollNotActive,
}

impl ErrorCode {
    /// The human-readable message surfaced to the caller beside the error.
    pub fn message(&self) -> (r: &'static str)
        ensures
            *self is InvalidDates ==> r@ == "Start date must be before end date"@,
            *self is PollNotFound ==> r@ == "Poll not found"@,
            *self is CandidateAlreadyRegistered ==> r@ == "Candidate already registered"@,
            *self is CandidateNotRegistered ==> r@ == "Candidate is not in the poll"@,
            *self is VoterAlreadyVoted ==> r@ == "Voter has already voted"@,
            *self is PollNotActive ==> r@ == "Poll is not currently active"@,
    {
        match self {
            ErrorCode::InvalidDates => "Start date must be before end date",
            ErrorCode::PollNotFound => "Poll not found",
            ErrorCode::CandidateAlreadyRegistered => "Candidate already registered",
            ErrorCode::CandidateNotRegistered => "Candidate is not in the poll",
            ErrorCode::VoterAlreadyVoted => "Voter has already voted",
            ErrorCode::PollNotActive => "Poll is not currently active",
        }
    }
}

/// How a whole transaction against the host ledger can fail: the host's record
/// store refuses to create a record at an address that already holds one, or
/// the program logic itself rejects the operation with an `ErrorCode`.
#[derive(Clone, Copy, Debug, PartialEq, Eq, Structural)]
pub enum LedgerError {
    /// The host's create-once-at-derived-address primitive found the address occupied.
    AddressInUse,
    /// The program logic rejected the operation.
    Program(ErrorCode),
}

} // verus!
