//! Properties of the contract that span several commands, stated over the
//! state model and proved.
use vstd::prelude::*;
use crate::contract::{initial_state, query_result, VoteResponse};
use crate::schedule::{Block, Deadline};
use crate::state::{ContractError, StateModel, VoteBox};

verus! {

/// The state after the votes `votes` are cast in order on `id`, each one
/// counted or refused as a single vote would be.
pub open spec fn run_votes(s: StateModel, block: Block, id: Option<u64>, votes: Seq<bool>) -> StateModel
    decreases votes.len(),
{
    if votes.len() == 0 {
        s
    } else {
        let t = run_votes(s, block, id, votes.drop_last());
        t.after(id, t.vote_outcome(block, id, votes.last()))
    }
}

/// How many of the votes `votes`, cast in order on `id`, were accepted.
pub open spec fn accepted_votes(s: StateModel, block: Block, id: Option<u64>, votes: Seq<bool>) -> nat
    decreases votes.len(),
{
    if votes.len() == 0 {
        0
    } else {
        let t = run_votes(s, block, id, votes.drop_last());
        accepted_votes(s, block, id, votes.drop_last()) + if t.vote_outcome(block, id, votes.last()) is Ok {
            1nat
        } else {
            0nat
        }
    }
}

/// How many of `votes` are yes votes.
pub open spec fn yes_votes(votes: Seq<bool>) -> nat
    decreases votes.len(),
{
    if votes.len() == 0 {
        0
    } else {
        yes_votes(votes.drop_last()) + if votes.last() {
            1nat
        } else {
            0nat
        }
    }
}

/// The sum of a record's counters.
pub open spec fn total(b: VoteBox) -> int {
    b.yes_count + b.no_count
}

/// An accepted vote raises exactly the chosen counter, by one, and leaves
/// the rest of the record as it was.
pub proof fn lemma_vote_counts_one(s: StateModel, block: Block, id: Option<u64>, vote: bool)
    requires
        s.wf(),
        s.vote_outcome(block, id, vote) is Ok,
    ensures
        ({
            let b = s.record(id)->Some_0;
            let n = s.after(id, s.vote_outcome(block, id, vote)).record(id)->Some_0;
            &&& s.record(id) is Some
            &&& n.yes_count == b.yes_count + if vote { 1int } else { 0int }
            &&& n.no_count == b.no_count + if vote { 0int } else { 1int }
            &&& n.id == b.id && n.deadline == b.deadline && n.owner == b.owner
        }),
{
}

/// Casting votes in order on one record never loses or invents a vote: the
/// sum of its counters grows by exactly the number of accepted votes.
pub proof fn lemma_votes_counted(s: StateModel, block: Block, id: Option<u64>, votes: Seq<bool>)
    requires
        s.wf(),
        s.record(id) is Some,
    ensures
        run_votes(s, block, id, votes).wf(),
        run_votes(s, block, id, votes).record(id) is Some,
        total(run_votes(s, block, id, votes).record(id)->Some_0) == total(s.record(id)->Some_0) + accepted_votes(
            s,
            block,
            id,
            votes,
        ),
    decreases votes.len(),
{
    if votes.len() > 0 {
        lemma_votes_counted(s, block, id, votes.drop_last());
    }
}

/// Votes cast before the deadline on a record that starts at zero, fewer than
/// the counters can hold, leave a query reporting exactly the yes votes and
/// the no votes cast.
pub proof fn lemma_query_after_votes(s: StateModel, block: Block, id: Option<u64>, votes: Seq<bool>)
    requires
        s.wf(),
        s.record(id) is Some,
        s.record(id)->Some_0.yes_count == 0,
        s.record(id)->Some_0.no_count == 0,
        !s.record(id)->Some_0.deadline.triggered_at(block),
        votes.len() <= u128::MAX,
    ensures
        query_result(run_votes(s, block, id, votes), id) == Ok::<VoteResponse, ContractError>(
            VoteResponse {
                yes_count: yes_votes(votes) as u128,
                no_count: (votes.len() - yes_votes(votes)) as u128,
                deadline: s.record(id)->Some_0.deadline,
            },
        ),
    decreases votes.len(),
{
    lemma_yes_votes_bound(votes);
    if votes.len() > 0 {
        lemma_query_after_votes(s, block, id, votes.drop_last());
        lemma_votes_counted(s, block, id, votes.drop_last());
        lemma_yes_votes_bound(votes.drop_last());
    }
}

proof fn lemma_yes_votes_bound(votes: Seq<bool>)
    ensures
        yes_votes(votes) <= votes.len(),
    decreases votes.len(),
{
    if votes.len() > 0 {
        lemma_yes_votes_bound(votes.drop_last());
    }
}

/// A reset by the record's owner before its deadline leaves both counters at
/// zero.
pub proof fn lemma_reset_zeroes(s: StateModel, block: Block, id: Option<u64>, sender: Seq<char>)
    requires
        s.wf(),
        s.record(id) is Some,
        sender == s.record(id)->Some_0.owner@,
        !s.record(id)->Some_0.deadline.triggered_at(block),
    ensures
        s.reset_outcome(block, id, sender) is Ok,
        s.after(id, s.reset_outcome(block, id, sender)).record(id)->Some_0.yes_count == 0,
        s.after(id, s.reset_outcome(block, id, sender)).record(id)->Some_0.no_count == 0,
{
}

/// Once a record's deadline has passed, a vote on it and a reset by its owner
/// both fail with `Expired` and change nothing.
pub proof fn lemma_expired_refuses(s: StateModel, block: Block, id: Option<u64>, vote: bool, sender: Seq<char>)
    requires
        s.record(id) is Some,
        s.record(id)->Some_0.deadline.triggered_at(block),
        sender == s.record(id)->Some_0.owner@,
    ensures
        s.vote_outcome(block, id, vote) == Err::<VoteBox, ContractError>(ContractError::Expired),
        s.after(id, s.vote_outcome(block, id, vote)) == s,
        s.reset_outcome(block, id, sender) == Err::<VoteBox, ContractError>(ContractError::Expired),
        s.after(id, s.reset_outcome(block, id, sender)) == s,
{
}

/// A reset by anyone but the record's owner fails with `Unauthorized` and
/// changes nothing.
pub proof fn lemma_non_owner_refused(s: StateModel, block: Block, id: Option<u64>, sender: Seq<char>)
    requires
        s.record(id) is Some,
        sender != s.record(id)->Some_0.owner@,
    ensures
        s.reset_outcome(block, id, sender) == Err::<VoteBox, ContractError>(ContractError::Unauthorized),
        s.after(id, s.reset_outcome(block, id, sender)) == s,
{
}

/// The first vote box created after instantiation gets id 1.
pub proof fn lemma_first_box_is_one(deadline: Deadline, admin: String, box_deadline: Deadline, owner: String)
    ensures
        initial_state(deadline, admin).create_outcome(box_deadline, owner, true) is Ok,
        initial_state(deadline, admin).create_outcome(box_deadline, owner, true)->Ok_0.id == 1,
{
}

/// Two creations in a row get consecutive, hence increasing, ids, and the
/// first box is left as it was.
pub proof fn lemma_ids_increase(s: StateModel, d1: Deadline, o1: String, d2: Deadline, o2: String)
    requires
        s.wf(),
        s.create_outcome(d1, o1, true) is Ok,
        s.after_create(s.create_outcome(d1, o1, true)).create_outcome(d2, o2, true) is Ok,
    ensures
        ({
            let first = s.create_outcome(d1, o1, true)->Ok_0;
            let s1 = s.after_create(s.create_outcome(d1, o1, true));
            let second = s1.create_outcome(d2, o2, true)->Ok_0;
            let s2 = s1.after_create(s1.create_outcome(d2, o2, true));
            &&& first.id == s.seq + 1
            &&& second.id == first.id + 1
            &&& s2.wf()
            &&& s2.record(Some(first.id)) == Some(first)
            &&& s2.record(Some(second.id)) == Some(second)
        }),
{
    let first = s.create_outcome(d1, o1, true)->Ok_0;
    let s1 = s.after_create(s.create_outcome(d1, o1, true));
    let second = s1.create_outcome(d2, o2, true)->Ok_0;
    let s2 = s1.after_create(s1.create_outcome(d2, o2, true));
    assert(s2.boxes[first.id - 1] == s1.boxes[first.id - 1]);
}

/// A vote or a reset on one record leaves every other record as it was.
pub proof fn lemma_records_isolated(
    s: StateModel,
    block: Block,
    id: Option<u64>,
    other: Option<u64>,
    vote: bool,
    sender: Seq<char>,
)
    requires
        s.wf(),
        id != other,
    ensures
        s.after(id, s.vote_outcome(block, id, vote)).record(other) == s.record(other),
        s.after(id, s.reset_outcome(block, id, sender)).record(other) == s.record(other),
        s.after(id, s.vote_outcome(block, id, vote)).wf(),
        s.after(id, s.reset_outcome(block, id, sender)).wf(),
{
}

} // verus!
