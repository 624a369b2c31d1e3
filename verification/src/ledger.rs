use vstd::prelude::*;

use crate::errors::{ErrorCode, LedgerError};
use crate::instructions;
use crate::states::{Candidate, Counter, Poll, Registrations, Voter};

verus! {

/// One slot of the record store's voter region. The host derives a voter
/// record's address from `(poll_id, identity)`; the identity is part of the
/// address, not of the stored record, so the slot keeps it alongside.
pub struct VoterEntry {
    /// The verified signer identity the record's address was derived from.
    pub identity: u64,
    pub voter: Voter,
}

/// The deterministic record store that hosts the poll system, modelled as one
/// region per record type. A record's identifying fields are its address:
/// "does record X exist" is a search for its key, and the store's
/// create-once-at-address rule becomes a uniqueness invariant per region.
pub struct Ledger {
    /// The global counter, present exactly after bootstrap.
    pub counter: Option<Counter>,
    /// The global registrations counter, present exactly after bootstrap.
    pub registrations: Option<Registrations>,
    /// Poll records, addressed by `id`.
    pub polls: Vec<Poll>,
    /// Candidate records, addressed by `(poll_id, cid)`.
    pub candidates: Vec<Candidate>,
    /// Voter receipts, addressed by `(poll_id, identity)`.
    pub voters: Vec<VoterEntry>,
}

/// Whether a poll record exists at the address derived from `id`.
pub open spec fn spec_has_poll(l: Ledger, id: u64) -> bool {
    exists|i: int| 0 <= i < l.polls@.len() && l.polls@[i].id == id
}

/// The index of the poll record addressed by `id` (meaningful only when
/// `spec_has_poll` holds; under `wf` that index is unique).
pub open spec fn spec_poll_index(l: Ledger, id: u64) -> int {
    choose|i: int| 0 <= i < l.polls@.len() && l.polls@[i].id == id
}

/// The poll record addressed by `id`.
pub open spec fn spec_poll(l: Ledger, id: u64) -> Poll {
    l.polls@[spec_poll_index(l, id)]
}

/// Whether a candidate record exists at the address derived from
/// `(poll_id, cid)`.
pub open spec fn spec_has_candidate(l: Ledger, poll_id: u64, cid: u64) -> bool {
    exists|i: int|
        0 <= i < l.candidates@.len() && l.candidates@[i].poll_id == poll_id
            && l.candidates@[i].cid == cid
}

/// The index of the candidate record addressed by `(poll_id, cid)`.
pub open spec fn spec_candidate_index(l: Ledger, poll_id: u64, cid: u64) -> int {
    choose|i: int|
        0 <= i < l.candidates@.len() && l.candidates@[i].poll_id == poll_id
            && l.candidates@[i].cid == cid
}

/// The candidate record addressed by `(poll_id, cid)`.
pub open spec fn spec_candidate(l: Ledger, poll_id: u64, cid: u64) -> Candidate {
    l.candidates@[spec_candidate_index(l, poll_id, cid)]
}

/// Whether a voter receipt exists at the address derived from
/// `(poll_id, identity)`.
pub open spec fn spec_has_voter(l: Ledger, poll_id: u64, identity: u64) -> bool {
    exists|i: int|
        0 <= i < l.voters@.len() && l.voters@[i].voter.poll_id == poll_id && l.voters@[i].identity
            == identity
}

/// Well-formedness of the store: every invariant the record lifecycles keep.
///
/// - addresses are unique per region (the store's create-once rule);
/// - both bootstrap counters exist together, and stay zero (no mutator yet);
/// - every poll satisfies `start < end`, checked at creation and immutable;
/// - every candidate was registered (`has_registered`) against an existing
///   poll;
/// - every voter receipt records a cast vote (`has_voted`) for an existing
///   candidate of that poll.
pub open spec fn wf(l: Ledger) -> bool {
    &&& (l.counter is Some <==> l.registrations is Some)
    &&& (l.counter is Some ==> l.counter->0.count == 0)
    &&& (l.registrations is Some ==> l.registrations->0.count == 0)
    &&& (forall|i: int, j: int|
        0 <= i < j < l.polls@.len() ==> l.polls@[i].id != l.polls@[j].id)
    &&& (forall|i: int| 0 <= i < l.polls@.len() ==> l.polls@[i].start < l.polls@[i].end)
    &&& (forall|i: int, j: int|
        0 <= i < j < l.candidates@.len() ==> !(l.candidates@[i].poll_id
            == l.candidates@[j].poll_id && l.candidates@[i].cid == l.candidates@[j].cid))
    &&& (forall|i: int| 0 <= i < l.candidates@.len() ==> l.candidates@[i].has_registered)
    &&& (forall|i: int|
        0 <= i < l.candidates@.len() ==> spec_has_poll(l, l.candidates@[i].poll_id))
    &&& (forall|i: int, j: int|
        0 <= i < j < l.voters@.len() ==> !(l.voters@[i].voter.poll_id
            == l.voters@[j].voter.poll_id && l.voters@[i].identity == l.voters@[j].identity))
    &&& (forall|i: int| 0 <= i < l.voters@.len() ==> l.voters@[i].voter.has_voted)
    &&& (forall|i: int|
        0 <= i < l.voters@.len() ==> spec_has_candidate(
            l,
            l.voters@[i].voter.poll_id,
            l.voters@[i].voter.cid,
        ))
}

/// The store is untouched: every region reads as before.
pub open spec fn unchanged(pre: Ledger, post: Ledger) -> bool {
    &&& post.counter == pre.counter
    &&& post.registrations == pre.registrations
    &&& post.polls@ == pre.polls@
    &&& post.candidates@ == pre.candidates@
    &&& post.voters@ == pre.voters@
}

/// What one bootstrap transaction does to the store. The two counters live at
/// fixed addresses, so a second bootstrap collides there and the host refuses
/// it; the first creates both, zeroed, and touches nothing else.
pub open spec fn initialize_post(pre: Ledger, post: Ledger, r: Result<(), LedgerError>) -> bool {
    if pre.counter is Some || pre.registrations is Some {
        &&& r == Err::<(), LedgerError>(LedgerError::AddressInUse)
        &&& unchanged(pre, post)
    } else {
        &&& r == Ok::<(), LedgerError>(())
        &&& post.counter == Some(Counter { count: 0 })
        &&& post.registrations == Some(Registrations { count: 0 })
        &&& post.polls@ == pre.polls@
        &&& post.candidates@ == pre.candidates@
        &&& post.voters@ == pre.voters@
    }
}

/// What one Create-Poll transaction does to the store. The host first creates
/// the record at the address derived from `id` (occupied: the whole
/// transaction fails), then the logic accepts the window iff `start < end`.
/// On any failure no record persists.
pub open spec fn create_poll_post(
    pre: Ledger,
    post: Ledger,
    r: Result<(), LedgerError>,
    id: u64,
    description: String,
    start: u64,
    end: u64,
) -> bool {
    if spec_has_poll(pre, id) {
        &&& r == Err::<(), LedgerError>(LedgerError::AddressInUse)
        &&& unchanged(pre, post)
    } else if start >= end {
        &&& r == Err::<(), LedgerError>(LedgerError::Program(ErrorCode::InvalidDates))
        &&& unchanged(pre, post)
    } else {
        &&& r == Ok::<(), LedgerError>(())
        &&& post.polls@ == pre.polls@.push(Poll { id, description, start, end })
        &&& post.counter == pre.counter
        &&& post.registrations == pre.registrations
        &&& post.candidates@ == pre.candidates@
        &&& post.voters@ == pre.voters@
    }
}

/// What one Register-Candidate transaction does to the store. The referenced
/// poll must exist (`PollNotFound`), and no candidate record may already
/// occupy the address derived from `(poll_id, cid)`
/// (`CandidateAlreadyRegistered`). Registration is accepted at any time
/// relative to the poll's window, deliberately: rosters may change late.
pub open spec fn register_candidate_post(
    pre: Ledger,
    post: Ledger,
    r: Result<(), LedgerError>,
    poll_id: u64,
    cid: u64,
    name: String,
) -> bool {
    if !spec_has_poll(pre, poll_id) {
        &&& r == Err::<(), LedgerError>(LedgerError::Program(ErrorCode::PollNotFound))
        &&& unchanged(pre, post)
    } else if spec_has_candidate(pre, poll_id, cid) {
        &&& r == Err::<(), LedgerError>(LedgerError::Program(ErrorCode::CandidateAlreadyRegistered))
        &&& unchanged(pre, post)
    } else {
        &&& r == Ok::<(), LedgerError>(())
        &&& post.candidates@ == pre.candidates@.push(
            instructions::spec_new_candidate(poll_id, cid, name),
        )
        &&& post.counter == pre.counter
        &&& post.registrations == pre.registrations
        &&& post.polls@ == pre.polls@
        &&& post.voters@ == pre.voters@
    }
}

/// The outcome of one Vote transaction against the store `l`, with the
/// preconditions in their fixed order: the candidate record must exist at
/// `(poll_id, cid)` with its registration flag set, then no voter receipt may
/// exist yet at `(poll_id, identity)`, then the trusted clock's reading `now`
/// must lie inside the poll's inclusive window. Only then does the vote count.
///
/// A candidate record whose stored `poll_id` differs from the supplied one is
/// simply a record at another address here, so the first check subsumes the
/// original's explicit field comparison. When the candidate check passes, the
/// poll itself exists by well-formedness, so no `PollNotFound` case remains.
pub open spec fn spec_vote_result(
    l: Ledger,
    poll_id: u64,
    cid: u64,
    identity: u64,
    now: u64,
) -> Result<(), LedgerError> {
    if !spec_has_candidate(l, poll_id, cid) || !spec_candidate(l, poll_id, cid).has_registered {
        Err(LedgerError::Program(ErrorCode::CandidateNotRegistered))
    } else if spec_has_voter(l, poll_id, identity) {
        Err(LedgerError::Program(ErrorCode::VoterAlreadyVoted))
    } else if now < spec_poll(l, poll_id).start || now > spec_poll(l, poll_id).end {
        Err(LedgerError::Program(ErrorCode::PollNotActive))
    } else {
        Ok(())
    }
}

/// What one Vote transaction does to the store: on success, atomically, a
/// voter receipt appears at `(poll_id, identity)` with `has_voted` set and
/// the chosen candidate's tally grows by exactly one; on failure nothing is
/// mutated at all.
pub open spec fn vote_post(
    pre: Ledger,
    post: Ledger,
    r: Result<(), LedgerError>,
    poll_id: u64,
    cid: u64,
    identity: u64,
    now: u64,
) -> bool {
    &&& r == spec_vote_result(pre, poll_id, cid, identity, now)
    &&& if r is Ok {
        let c = spec_candidate(pre, poll_id, cid);
        {
            &&& post.candidates@ == pre.candidates@.update(
                spec_candidate_index(pre, poll_id, cid),
                (Candidate {
                    poll_id: c.poll_id,
                    cid: c.cid,
                    name: c.name,
                    votes: (c.votes + 1) as u64,
                    has_registered: c.has_registered,
                }),
            )
            &&& post.voters@ == pre.voters@.push(
                (VoterEntry { identity, voter: Voter { poll_id, cid, has_voted: true } }),
            )
            &&& post.polls@ == pre.polls@
            &&& post.counter == pre.counter
            &&& post.registrations == pre.registrations
        }
    } else {
        unchanged(pre, post)
    }
}

/// In a well-formed store the candidate region holds at most one record per
/// address, so any index holding the key `(poll_id, cid)` is the index the
/// specification functions pick.
pub proof fn lemma_candidate_index_unique(l: Ledger, poll_id: u64, cid: u64, i: int)
    requires
        wf(l),
        0 <= i < l.candidates@.len(),
        l.candidates@[i].poll_id == poll_id,
        l.candidates@[i].cid == cid,
    ensures
        spec_has_candidate(l, poll_id, cid),
        spec_candidate_index(l, poll_id, cid) == i,
{
    assert(spec_has_candidate(l, poll_id, cid));
    let w = spec_candidate_index(l, poll_id, cid);
    if w != i {
        if w < i {
            assert(!(l.candidates@[w].poll_id == l.candidates@[i].poll_id && l.candidates@[w].cid
                == l.candidates@[i].cid));
        } else {
            assert(!(l.candidates@[i].poll_id == l.candidates@[w].poll_id && l.candidates@[i].cid
                == l.candidates@[w].cid));
        }
    }
}

/// In a well-formed store the poll region holds at most one record per
/// address, so any index holding the id is the index the specification
/// functions pick.
pub proof fn lemma_poll_index_unique(l: Ledger, id: u64, i: int)
    requires
        wf(l),
        0 <= i < l.polls@.len(),
        l.polls@[i].id == id,
    ensures
        spec_has_poll(l, id),
        spec_poll_index(l, id) == i,
{
    assert(spec_has_poll(l, id));
    let w = spec_poll_index(l, id);
    if w != i {
        if w < i {
            assert(l.polls@[w].id != l.polls@[i].id);
        } else {
            assert(l.polls@[i].id != l.polls@[w].id);
        }
    }
}

/// Law: with a fresh poll id, Create-Poll succeeds exactly when
/// `start < end`; an empty or inverted window is rejected with
/// `InvalidDates` and no poll record persists.
pub proof fn lemma_create_poll_dates(
    pre: Ledger,
    post: Ledger,
    r: Result<(), LedgerError>,
    id: u64,
    description: String,
    start: u64,
    end: u64,
)
    requires
        !spec_has_poll(pre, id),
        create_poll_post(pre, post, r, id, description, start, end),
    ensures
        r is Ok <==> start < end,
        start >= end ==> r == Err::<(), LedgerError>(LedgerError::Program(ErrorCode::InvalidDates))
            && post.polls@ == pre.polls@,
{
}

/// Law: registering the same `(poll_id, cid)` twice against an existing poll
/// succeeds the first time and fails the second time with
/// `CandidateAlreadyRegistered`, whatever the names.
pub proof fn lemma_register_twice(
    pre: Ledger,
    mid: Ledger,
    post: Ledger,
    r1: Result<(), LedgerError>,
    r2: Result<(), LedgerError>,
    poll_id: u64,
    cid: u64,
    name1: String,
    name2: String,
)
    requires
        spec_has_poll(pre, poll_id),
        !spec_has_candidate(pre, poll_id, cid),
        register_candidate_post(pre, mid, r1, poll_id, cid, name1),
        register_candidate_post(mid, post, r2, poll_id, cid, name2),
    ensures
        r1 == Ok::<(), LedgerError>(()),
        r2 == Err::<(), LedgerError>(LedgerError::Program(ErrorCode::CandidateAlreadyRegistered)),
{
    let n: int = pre.candidates@.len() as int;
    assert(mid.candidates@[n].poll_id == poll_id && mid.candidates@[n].cid == cid);
    assert(spec_has_candidate(mid, poll_id, cid));
    let w = spec_poll_index(pre, poll_id);
    assert(mid.polls@[w].id == poll_id);
    assert(spec_has_poll(mid, poll_id));
}

/// Law: a voter identity's vote on a poll is accepted at most once, however
/// often it is retried and whichever candidate the retry names. Once a vote
/// has succeeded, any further attempt that gets past the candidate check is
/// rejected with `VoterAlreadyVoted`.
pub proof fn lemma_vote_at_most_once(
    pre: Ledger,
    mid: Ledger,
    post: Ledger,
    r1: Result<(), LedgerError>,
    r2: Result<(), LedgerError>,
    poll_id: u64,
    cid1: u64,
    cid2: u64,
    identity: u64,
    now1: u64,
    now2: u64,
)
    requires
        vote_post(pre, mid, r1, poll_id, cid1, identity, now1),
        vote_post(mid, post, r2, poll_id, cid2, identity, now2),
        r1 is Ok,
    ensures
        !(r2 is Ok),
        spec_has_candidate(mid, poll_id, cid2) && spec_candidate(
            mid,
            poll_id,
            cid2,
        ).has_registered ==> r2 == Err::<(), LedgerError>(
            LedgerError::Program(ErrorCode::VoterAlreadyVoted),
        ),
{
    let n: int = pre.voters@.len() as int;
    assert(mid.voters@[n].voter.poll_id == poll_id && mid.voters@[n].identity == identity);
    assert(spec_has_voter(mid, poll_id, identity));
}

/// Law: a voter receipt, once present, survives every later vote, whatever
/// that vote's outcome — receipts are never updated or deleted. With the
/// at-most-once law this extends the rejection of a second vote to every
/// later attempt, however many operations lie between.
pub proof fn lemma_receipts_persist(
    pre: Ledger,
    post: Ledger,
    r: Result<(), LedgerError>,
    poll_id: u64,
    cid: u64,
    identity: u64,
    now: u64,
    other_poll: u64,
    other_identity: u64,
)
    requires
        vote_post(pre, post, r, poll_id, cid, identity, now),
        spec_has_voter(pre, other_poll, other_identity),
    ensures
        spec_has_voter(post, other_poll, other_identity),
{
    let w = choose|i: int|
        0 <= i < pre.voters@.len() && pre.voters@[i].voter.poll_id == other_poll
            && pre.voters@[i].identity == other_identity;
    assert(post.voters@[w] == pre.voters@[w]);
    assert(spec_has_voter(post, other_poll, other_identity));
}

/// Law: with a registered candidate and no receipt yet for the voter, the
/// vote is accepted exactly when the clock reads inside the poll's inclusive
/// window, and rejected with `PollNotActive` for any reading outside it.
pub proof fn lemma_vote_window(l: Ledger, poll_id: u64, cid: u64, identity: u64, now: u64)
    requires
        wf(l),
        spec_has_candidate(l, poll_id, cid),
        !spec_has_voter(l, poll_id, identity),
    ensures
        (now < spec_poll(l, poll_id).start || now > spec_poll(l, poll_id).end)
            ==> spec_vote_result(l, poll_id, cid, identity, now) == Err::<(), LedgerError>(
            LedgerError::Program(ErrorCode::PollNotActive),
        ),
        (spec_poll(l, poll_id).start <= now && now <= spec_poll(l, poll_id).end)
            ==> spec_vote_result(l, poll_id, cid, identity, now) is Ok,
{
    let ci = spec_candidate_index(l, poll_id, cid);
    assert(l.candidates@[ci].has_registered);
}

/// Law: a vote against a candidate record that does not exist at
/// `(poll_id, cid)` — which covers a record whose stored poll id differs
/// from the supplied one, since that record lives at another address — is
/// rejected with `CandidateNotRegistered`.
pub proof fn lemma_vote_unregistered(l: Ledger, poll_id: u64, cid: u64, identity: u64, now: u64)
    requires
        !spec_has_candidate(l, poll_id, cid),
    ensures
        spec_vote_result(l, poll_id, cid, identity, now) == Err::<(), LedgerError>(
            LedgerError::Program(ErrorCode::CandidateNotRegistered),
        ),
{
}

impl Ledger {
    /// An empty store: nothing bootstrapped, no records of any kind.
    pub fn new() -> (l: Ledger)
        ensures
            wf(l),
            l.counter is None,
            l.registrations is None,
            l.polls@.len() == 0,
            l.candidates@.len() == 0,
            l.voters@.len() == 0,
    {
        Ledger {
            counter: None,
            registrations: None,
            polls: Vec::new(),
            candidates: Vec::new(),
            voters: Vec::new(),
        }
    }

    /// Bootstrap the system: create the two global counters at their fixed
    /// addresses, both zeroed, or refuse the whole transaction when either
    /// address already holds a record (the system was bootstrapped before).
    pub fn initialize(&mut self) -> (r: Result<(), LedgerError>)
        requires
            wf(*old(self)),
        ensures
            wf(*final(self)),
            initialize_post(*old(self), *final(self), r),
    {
        if self.counter.is_some() || self.registrations.is_some() {
            return Err(LedgerError::AddressInUse);
        }
        let mut counter = Counter { count: 0 };
        let mut registrations = Registrations { count: 0 };
        instructions::initialize(&mut counter, &mut registrations);
        self.counter = Some(counter);
        self.registrations = Some(registrations);
        Ok(())
    }

    /// Create-Poll: persist a new poll record under the caller-supplied `id`,
    /// rejecting an occupied address (the host's collision) and an empty or
    /// inverted window (`InvalidDates`). Nothing else is touched either way.
    pub fn create_poll(&mut self, id: u64, description: String, start: u64, end: u64) -> (r: Result<
        (),
        LedgerError,
    >)
        requires
            wf(*old(self)),
        ensures
            wf(*final(self)),
            create_poll_post(*old(self), *final(self), r, id, description, start, end),
            r is Ok <==> (!spec_has_poll(*old(self), id) && start < end),
    {
        if self.find_poll(id).is_some() {
            return Err(LedgerError::AddressInUse);
        }
        match instructions::create_poll(id, description, start, end) {
            Ok(poll) => {
                self.polls.push(poll);
                proof {
                    assert forall|i: int|
                        0 <= i < self.candidates@.len() implies spec_has_poll(
                        *self,
                        self.candidates@[i].poll_id,
                    ) by {
                        let w = spec_poll_index(*old(self), self.candidates@[i].poll_id);
                        assert(self.polls@[w].id == self.candidates@[i].poll_id);
                    }
                }
                Ok(())
            },
            Err(e) => Err(LedgerError::Program(e)),
        }
    }

    /// Register-Candidate: persist a candidate record under `(poll_id, cid)`
    /// with a zero tally and the registration flag set, after checking that
    /// the poll exists and that the address is free. The poll's time window
    /// is deliberately not consulted.
    pub fn register_candidate(&mut self, poll_id: u64, cid: u64, name: String) -> (r: Result<
        (),
        LedgerError,
    >)
        requires
            wf(*old(self)),
        ensures
            wf(*final(self)),
            register_candidate_post(*old(self), *final(self), r, poll_id, cid, name),
            r is Ok <==> (spec_has_poll(*old(self), poll_id) && !spec_has_candidate(
                *old(self),
                poll_id,
                cid,
            )),
    {
        if self.find_poll(poll_id).is_none() {
            return Err(LedgerError::Program(ErrorCode::PollNotFound));
        }
        if self.find_candidate(poll_id, cid).is_some() {
            return Err(LedgerError::Program(ErrorCode::CandidateAlreadyRegistered));
        }
        let candidate = instructions::register_candidate(poll_id, cid, name);
        self.candidates.push(candidate);
        proof {
            assert forall|i: int|
                0 <= i < self.candidates@.len() implies spec_has_poll(
                *self,
                self.candidates@[i].poll_id,
            ) by {
                if i < old(self).candidates@.len() {
                    let w = spec_poll_index(*old(self), old(self).candidates@[i].poll_id);
                    assert(self.polls@[w].id == self.candidates@[i].poll_id);
                } else {
                    let w = spec_poll_index(*old(self), poll_id);
                    assert(self.polls@[w].id == poll_id);
                }
            }
            assert forall|i: int|
                0 <= i < self.voters@.len() implies spec_has_candidate(
                *self,
                self.voters@[i].voter.poll_id,
                self.voters@[i].voter.cid,
            ) by {
                let w = spec_candidate_index(
                    *old(self),
                    self.voters@[i].voter.poll_id,
                    self.voters@[i].voter.cid,
                );
                assert(self.candidates@[w].poll_id == self.voters@[i].voter.poll_id);
            }
        }
        Ok(())
    }

    /// Vote: have `identity` cast its one vote for candidate `(poll_id, cid)`
    /// at the trusted clock's reading `now`. The preconditions are checked in
    /// their fixed order — candidate registered, no receipt for this voter
    /// yet, clock inside the poll's window — and each failure aborts the
    /// whole transaction with no mutation. On success the receipt and the
    /// incremented tally persist together.
    ///
    /// The tally is kept below `u64::MAX` by the caller whenever the vote
    /// would be accepted, so the increment cannot wrap around.
    pub fn vote(&mut self, poll_id: u64, cid: u64, identity: u64, now: u64) -> (r: Result<
        (),
        LedgerError,
    >)
        requires
            wf(*old(self)),
            spec_vote_result(*old(self), poll_id, cid, identity, now) is Ok ==> spec_candidate(
                *old(self),
                poll_id,
                cid,
            ).votes < u64::MAX,
        ensures
            wf(*final(self)),
            vote_post(*old(self), *final(self), r, poll_id, cid, identity, now),
    {
        let cand_i: usize = match self.find_candidate(poll_id, cid) {
            None => {
                return Err(LedgerError::Program(ErrorCode::CandidateNotRegistered));
            },
            Some(i) => i,
        };
        proof {
            lemma_candidate_index_unique(*self, poll_id, cid, cand_i as int);
        }
        if !self.candidates[cand_i].has_registered {
            return Err(LedgerError::Program(ErrorCode::CandidateNotRegistered));
        }
        if self.find_voter(poll_id, identity).is_some() {
            return Err(LedgerError::Program(ErrorCode::VoterAlreadyVoted));
        }
        let poll_i: usize = match self.find_poll(poll_id) {
            None => {
                // Unreachable: in a well-formed store a registered
                // candidate's poll exists.
                proof {
                    assert(self.candidates@[cand_i as int].poll_id == poll_id);
                    assert(spec_has_poll(*self, poll_id));
                }
                return Err(LedgerError::Program(ErrorCode::PollNotFound));
            },
            Some(i) => i,
        };
        proof {
            lemma_poll_index_unique(*self, poll_id, poll_i as int);
        }
        if now < self.polls[poll_i].start || now > self.polls[poll_i].end {
            return Err(LedgerError::Program(ErrorCode::PollNotActive));
        }
        proof {
            assert(spec_vote_result(*self, poll_id, cid, identity, now) is Ok);
        }
        // The host allocates a fresh, blank receipt at the now-free address and
        // hands it, with the poll and the candidate, to the voting engine.
        let mut voter = Voter { poll_id: 0, cid: 0, has_voted: false };
        let ghost pre = *self;
        let poll = &self.polls[poll_i];
        let candidate = &mut self.candidates[cand_i];
        let step = instructions::vote(poll, candidate, &mut voter, poll_id, cid, now);
        proof {
            assert(step is Ok);
        }
        self.voters.push(VoterEntry { identity, voter });
        proof {
            let c = spec_candidate(pre, poll_id, cid);
            assert(self.candidates@ =~= pre.candidates@.update(
                cand_i as int,
                (Candidate {
                    poll_id: c.poll_id,
                    cid: c.cid,
                    name: c.name,
                    votes: (c.votes + 1) as u64,
                    has_registered: c.has_registered,
                }),
            ));
            assert(self.voters@ =~= pre.voters@.push(
                (VoterEntry { identity, voter: Voter { poll_id, cid, has_voted: true } }),
            ));
            // Well-formedness survives: the update keeps every candidate's
            // address and flag, and the new receipt's address was free.
            assert forall|i: int, j: int|
                0 <= i < j < self.candidates@.len() implies !(self.candidates@[i].poll_id
                == self.candidates@[j].poll_id && self.candidates@[i].cid
                == self.candidates@[j].cid) by {
                assert(self.candidates@[i].poll_id == pre.candidates@[i].poll_id
                    && self.candidates@[i].cid == pre.candidates@[i].cid);
                assert(self.candidates@[j].poll_id == pre.candidates@[j].poll_id
                    && self.candidates@[j].cid == pre.candidates@[j].cid);
            }
            assert forall|i: int|
                0 <= i < self.candidates@.len() implies spec_has_poll(
                *self,
                self.candidates@[i].poll_id,
            ) by {
                assert(self.candidates@[i].poll_id == pre.candidates@[i].poll_id);
                let w = spec_poll_index(pre, pre.candidates@[i].poll_id);
                assert(self.polls@[w].id == self.candidates@[i].poll_id);
            }
            assert forall|i: int, j: int|
                0 <= i < j < self.voters@.len() implies !(self.voters@[i].voter.poll_id
                == self.voters@[j].voter.poll_id && self.voters@[i].identity
                == self.voters@[j].identity) by {
                if j < pre.voters@.len() {
                    assert(self.voters@[i] == pre.voters@[i]);
                    assert(self.voters@[j] == pre.voters@[j]);
                } else {
                    assert(self.voters@[i] == pre.voters@[i]);
                    assert(!spec_has_voter(pre, poll_id, identity));
                }
            }
            assert forall|i: int|
                0 <= i < self.voters@.len() implies spec_has_candidate(
                *self,
                self.voters@[i].voter.poll_id,
                self.voters@[i].voter.cid,
            ) by {
                if i < pre.voters@.len() {
                    let w = spec_candidate_index(
                        pre,
                        pre.voters@[i].voter.poll_id,
                        pre.voters@[i].voter.cid,
                    );
                    assert(self.candidates@[w].poll_id == pre.candidates@[w].poll_id
                        && self.candidates@[w].cid == pre.candidates@[w].cid);
                    assert(self.voters@[i] == pre.voters@[i]);
                } else {
                    assert(self.candidates@[cand_i as int].poll_id == poll_id
                        && self.candidates@[cand_i as int].cid == cid);
                }
            }
        }
        match step {
            Ok(()) => Ok(()),
            Err(e) => Err(LedgerError::Program(e)),
        }
    }

    /// The current tally of the candidate at `(poll_id, cid)`, when such a
    /// record exists.
    pub fn votes_of(&self, poll_id: u64, cid: u64) -> (r: Option<u64>)
        requires
            wf(*self),
        ensures
            match r {
                Some(v) => spec_has_candidate(*self, poll_id, cid) && v == spec_candidate(
                    *self,
                    poll_id,
                    cid,
                ).votes,
                None => !spec_has_candidate(*self, poll_id, cid),
            },
    {
        match self.find_candidate(poll_id, cid) {
            Some(i) => {
                proof {
                    lemma_candidate_index_unique(*self, poll_id, cid, i as int);
                }
                Some(self.candidates[i].votes)
            },
            None => None,
        }
    }

    /// Whether a voter receipt exists for `identity` on `poll_id`, that is,
    /// whether this identity's one vote on this poll has been cast.
    pub fn has_voted(&self, poll_id: u64, identity: u64) -> (r: bool)
        ensures
            r == spec_has_voter(*self, poll_id, identity),
    {
        self.find_voter(poll_id, identity).is_some()
    }

    /// Find the poll record addressed by `id`.
    fn find_poll(&self, id: u64) -> (r: Option<usize>)
        ensures
            match r {
                Some(i) => i < self.polls@.len() && self.polls@[i as int].id == id,
                None => !spec_has_poll(*self, id),
            },
    {
        let n: usize = self.polls.len();
        let mut i: usize = 0;
        while i < n
            invariant
                n == self.polls@.len(),
                i <= n,
                forall|j: int| 0 <= j < i ==> self.polls@[j].id != id,
            decreases n - i,
        {
            if self.polls[i].id == id {
                return Some(i);
            }
            i = i + 1;
        }
        None
    }

    /// Find the candidate record addressed by `(poll_id, cid)`.
    fn find_candidate(&self, poll_id: u64, cid: u64) -> (r: Option<usize>)
        ensures
            match r {
                Some(i) => i < self.candidates@.len() && self.candidates@[i as int].poll_id
                    == poll_id && self.candidates@[i as int].cid == cid,
                None => !spec_has_candidate(*self, poll_id, cid),
            },
    {
        let n: usize = self.candidates.len();
        let mut i: usize = 0;
        while i < n
            invariant
                n == self.candidates@.len(),
                i <= n,
                forall|j: int|
                    0 <= j < i ==> !(self.candidates@[j].poll_id == poll_id
                        && self.candidates@[j].cid == cid),
            decreases n - i,
        {
            if self.candidates[i].poll_id == poll_id && self.candidates[i].cid == cid {
                return Some(i);
            }
            i = i + 1;
        }
        None
    }

    /// Find the voter receipt addressed by `(poll_id, identity)`.
    fn find_voter(&self, poll_id: u64, identity: u64) -> (r: Option<usize>)
        ensures
            match r {
                Some(i) => i < self.voters@.len() && self.voters@[i as int].voter.poll_id == poll_id
                    && self.voters@[i as int].identity == identity,
                None => !spec_has_voter(*self, poll_id, identity),
            },
    {
        let n: usize = self.voters.len();
        let mut i: usize = 0;
        while i < n
            invariant
                n == self.voters@.len(),
                i <= n,
                forall|j: int|
                    0 <= j < i ==> !(self.voters@[j].voter.poll_id == poll_id
                        && self.voters@[j].identity == identity),
            decreases n - i,
        {
            if self.voters[i].voter.poll_id == poll_id && self.voters[i].identity == identity {
                return Some(i);
            }
            i = i + 1;
        }
        None
    }
}

} // verus!
