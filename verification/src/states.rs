use vstd::prelude::*;

verus! {

/// Global counter record, created once at bootstrap and initialized to zero.
/// No operation increments it yet: it is a reserved extension point.
#[derive(Clone, Copy, Debug, PartialEq, Eq, Structural)]
pub struct Counter {
    pub count: u64,
}

/// Global registrations counter, created once at bootstrap and initialized to
/// zero. Like `Counter`, a reserved extension point with no mutator yet.
#[derive(Clone, Copy, Debug, PartialEq, Eq, Structural)]
pub struct Registrations {
    pub count: u64,
}

/// A poll record. Immutable once created; voting is permitted exactly while
/// the trusted clock reads a timestamp in the inclusive window `[start, end]`.
pub struct Poll {
    pub id: u64,
    pub description: String,
    pub start: u64,
    pub end: u64,
}

/// A candidate record, scoped to one poll and unique per `(poll_id, cid)`.
/// `has_registered` is true from the moment registration succeeds; `votes`
/// is mutated only by the voting engine, one increment per successful vote.
pub struct Candidate {
    pub poll_id: u64,
    pub cid: u64,
    pub name: String,
    pub votes: u64,
    pub has_registered: bool,
}

/// A voting receipt, unique per `(poll_id, voter identity)`. It exists only
/// after a successful vote, and then always with `has_voted == true`.
#[derive(Clone, Copy, Debug, PartialEq, Eq, Structural)]
pub struct Voter {
    pub poll_id: u64,
    pub cid: u64,
    pub has_voted: bool,
}

} // verus!
