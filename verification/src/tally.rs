use vstd::prelude::*;

use crate::ledger::{
    create_poll_post, initialize_post, register_candidate_post, spec_has_candidate, vote_post, wf,
    Ledger, VoterEntry,
};

verus! {

/// How many voter receipts in `voters` were cast for the candidate at
/// `(poll_id, cid)`.
pub open spec fn spec_receipts_for(voters: Seq<VoterEntry>, poll_id: u64, cid: u64) -> nat
    decreases voters.len(),
{
    if voters.len() == 0 {
        0
    } else {
        spec_receipts_for(voters.drop_last(), poll_id, cid) + (if voters.last().voter.poll_id
            == poll_id && voters.last().voter.cid == cid {
            1nat
        } else {
            0nat
        })
    }
}

/// Tally correctness: every candidate's `votes` counter equals the number of
/// voter receipts cast for it. Registration starts the counter at zero with
/// no receipts, and each successful vote adds one receipt and one count,
/// atomically, so the two bookkeepings never drift apart.
pub open spec fn spec_tally_consistent(l: Ledger) -> bool {
    forall|i: int|
        0 <= i < l.candidates@.len() ==> l.candidates@[i].votes == spec_receipts_for(
            l.voters@,
            l.candidates@[i].poll_id,
            l.candidates@[i].cid,
        )
}

/// A receipt region in which no entry matches `(poll_id, cid)` holds no
/// receipt for that candidate.
pub proof fn lemma_receipts_none(voters: Seq<VoterEntry>, poll_id: u64, cid: u64)
    requires
        forall|i: int|
            0 <= i < voters.len() ==> !(voters[i].voter.poll_id == poll_id && voters[i].voter.cid
                == cid),
    ensures
        spec_receipts_for(voters, poll_id, cid) == 0,
    decreases voters.len(),
{
    if voters.len() > 0 {
        lemma_receipts_none(voters.drop_last(), poll_id, cid);
    }
}

/// Appending one receipt raises the count for its own candidate by one and
/// leaves every other candidate's count as it was.
pub proof fn lemma_receipts_push(
    voters: Seq<VoterEntry>,
    entry: VoterEntry,
    poll_id: u64,
    cid: u64,
)
    ensures
        entry.voter.poll_id == poll_id && entry.voter.cid == cid ==> spec_receipts_for(
            voters.push(entry),
            poll_id,
            cid,
        ) == spec_receipts_for(voters, poll_id, cid) + 1,
        !(entry.voter.poll_id == poll_id && entry.voter.cid == cid) ==> spec_receipts_for(
            voters.push(entry),
            poll_id,
            cid,
        ) == spec_receipts_for(voters, poll_id, cid),
{
    assert(voters.push(entry).drop_last() =~= voters);
    assert(voters.push(entry).last() == entry);
}

/// A fresh store is tally-consistent: it has no candidates at all.
pub proof fn lemma_tally_empty(l: Ledger)
    requires
        l.candidates@.len() == 0,
    ensures
        spec_tally_consistent(l),
{
}

/// Bootstrap touches neither candidates nor receipts, so it preserves tally
/// correctness.
pub proof fn lemma_initialize_preserves_tally(
    pre: Ledger,
    post: Ledger,
    r: Result<(), crate::errors::LedgerError>,
)
    requires
        spec_tally_consistent(pre),
        initialize_post(pre, post, r),
    ensures
        spec_tally_consistent(post),
{
}

/// Create-Poll touches neither candidates nor receipts, so it preserves
/// tally correctness.
pub proof fn lemma_create_poll_preserves_tally(
    pre: Ledger,
    post: Ledger,
    r: Result<(), crate::errors::LedgerError>,
    id: u64,
    description: String,
    start: u64,
    end: u64,
)
    requires
        spec_tally_consistent(pre),
        create_poll_post(pre, post, r, id, description, start, end),
    ensures
        spec_tally_consistent(post),
{
}

/// Register-Candidate preserves tally correctness: the new candidate starts
/// at zero votes, and a well-formed store holds no receipt for a candidate
/// that did not exist yet.
pub proof fn lemma_register_preserves_tally(
    pre: Ledger,
    post: Ledger,
    r: Result<(), crate::errors::LedgerError>,
    poll_id: u64,
    cid: u64,
    name: String,
)
    requires
        wf(pre),
        spec_tally_consistent(pre),
        register_candidate_post(pre, post, r, poll_id, cid, name),
    ensures
        spec_tally_consistent(post),
{
    if r is Ok {
        assert forall|i: int|
            0 <= i < pre.voters@.len() implies !(pre.voters@[i].voter.poll_id == poll_id
            && pre.voters@[i].voter.cid == cid) by {
            if pre.voters@[i].voter.poll_id == poll_id && pre.voters@[i].voter.cid == cid {
                assert(spec_has_candidate(pre, poll_id, cid));
            }
        }
        lemma_receipts_none(pre.voters@, poll_id, cid);
        assert forall|i: int|
            0 <= i < post.candidates@.len() implies post.candidates@[i].votes == spec_receipts_for(
            post.voters@,
            post.candidates@[i].poll_id,
            post.candidates@[i].cid,
        ) by {
            if i < pre.candidates@.len() {
                assert(post.candidates@[i] == pre.candidates@[i]);
            } else {
                assert(post.candidates@[i] == crate::instructions::spec_new_candidate(
                    poll_id,
                    cid,
                    name,
                ));
            }
        }
    }
}

/// Vote preserves tally correctness: the one new receipt belongs to the one
/// candidate whose counter grew, and it grew by exactly one; every other
/// candidate keeps both its counter and its receipt count.
pub proof fn lemma_vote_preserves_tally(
    pre: Ledger,
    post: Ledger,
    r: Result<(), crate::errors::LedgerError>,
    poll_id: u64,
    cid: u64,
    identity: u64,
    now: u64,
)
    requires
        wf(pre),
        spec_tally_consistent(pre),
        vote_post(pre, post, r, poll_id, cid, identity, now),
        r is Ok ==> crate::ledger::spec_candidate(pre, poll_id, cid).votes < u64::MAX,
    ensures
        spec_tally_consistent(post),
{
    if r is Ok {
        let idx = crate::ledger::spec_candidate_index(pre, poll_id, cid);
        let c = crate::ledger::spec_candidate(pre, poll_id, cid);
        assert(0 <= idx < pre.candidates@.len() && c.poll_id == poll_id && c.cid == cid);
        let entry = VoterEntry {
            identity,
            voter: crate::states::Voter { poll_id, cid, has_voted: true },
        };
        assert(post.voters@ == pre.voters@.push(entry));
        assert forall|i: int|
            0 <= i < post.candidates@.len() implies post.candidates@[i].votes == spec_receipts_for(
            post.voters@,
            post.candidates@[i].poll_id,
            post.candidates@[i].cid,
        ) by {
            if i == idx {
                lemma_receipts_push(pre.voters@, entry, poll_id, cid);
                assert(post.candidates@[idx].votes == c.votes + 1);
            } else {
                assert(post.candidates@[i] == pre.candidates@[i]);
                // distinct records hold distinct addresses, so the new
                // receipt is not theirs
                if i < idx {
                    assert(!(pre.candidates@[i].poll_id == pre.candidates@[idx].poll_id
                        && pre.candidates@[i].cid == pre.candidates@[idx].cid));
                } else {
                    assert(!(pre.candidates@[idx].poll_id == pre.candidates@[i].poll_id
                        && pre.candidates@[idx].cid == pre.candidates@[i].cid));
                }
                lemma_receipts_push(
                    pre.voters@,
                    entry,
                    pre.candidates@[i].poll_id,
                    pre.candidates@[i].cid,
                );
            }
        }
    }
}

} // verus!
