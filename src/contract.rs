//! The contract's entry points: instantiation, the commands that change the
//! tallies, and the read-only query.
use vstd::prelude::*;
use crate::schedule::{Block, Deadline};
use crate::state::{tally_result, ContractError, StateModel, Tally, VoteBox, VoteState};

verus! {

/// The fixed owner of the global tally, and the only caller allowed to
/// instantiate the contract.
pub const ADMIN: &'static str = "admin";

/// A command of `execute`. `id` addresses a vote box, or the global tally
/// when it is `None`.
#[derive(Clone, Debug)]
pub enum ExecuteMsg {
    CreateVoteBox { deadline: Deadline, owner: String },
    Vote { id: Option<u64>, vote: bool },
    VoteReset { id: Option<u64> },
}

/// What a successful command reports.
#[derive(Clone, Debug)]
pub enum ExecuteResponse {
    /// A vote box was created with this id and owner.
    Created { id: u64, owner: String },
    /// A vote was counted; the record's new tally.
    Voted { tally: Tally },
    /// The record was reset by `caller`; its new tally.
    Reset { tally: Tally, caller: String },
}

/// A query of `query`.
#[derive(Clone, Copy, Debug, PartialEq, Eq, Structural)]
pub enum QueryMsg {
    QueryVote { id: Option<u64> },
}

/// The current tally of a record, with its deadline.
#[derive(Clone, Copy, Debug, PartialEq, Eq, Structural)]
pub struct VoteResponse {
    pub yes_count: u128,
    pub no_count: u128,
    pub deadline: Deadline,
}

/// The state right after instantiation: a zeroed global tally owned by the
/// admin with the given deadline, and no vote boxes.
pub open spec fn initial_state(deadline: Deadline, admin: String) -> StateModel {
    StateModel {
        global: VoteBox { id: 0, yes_count: 0, no_count: 0, deadline, owner: admin },
        seq: 0,
        boxes: Seq::empty(),
    }
}

/// The id that a creation reports.
pub open spec fn id_result(outcome: Result<VoteBox, ContractError>) -> Result<u64, ContractError> {
    match outcome {
        Ok(b) => Ok(b.id),
        Err(e) => Err(e),
    }
}

/// What a query of `id` returns in state `s`.
pub open spec fn query_result(s: StateModel, id: Option<u64>) -> Result<VoteResponse, ContractError> {
    match s.record(id) {
        Some(b) => Ok(VoteResponse { yes_count: b.yes_count, no_count: b.no_count, deadline: b.deadline }),
        None => Err(ContractError::NotFound),
    }
}

/// The state after `execute` of `msg` by `sender` in `block`.
pub open spec fn execute_state(s: StateModel, block: Block, sender: Seq<char>, msg: ExecuteMsg, owner_valid: bool) -> StateModel {
    match msg {
        ExecuteMsg::CreateVoteBox { deadline, owner } => s.after_create(s.create_outcome(deadline, owner, owner_valid)),
        ExecuteMsg::Vote { id, vote } => s.after(id, s.vote_outcome(block, id, vote)),
        ExecuteMsg::VoteReset { id } => s.after(id, s.reset_outcome(block, id, sender)),
    }
}

/// What `execute` of `msg` by `sender` in `block` returns.
pub open spec fn execute_result(s: StateModel, block: Block, sender: String, msg: ExecuteMsg, owner_valid: bool) -> Result<ExecuteResponse, ContractError> {
    match msg {
        ExecuteMsg::CreateVoteBox { deadline, owner } => match s.create_outcome(deadline, owner, owner_valid) {
            Ok(b) => Ok(ExecuteResponse::Created { id: b.id, owner }),
            Err(e) => Err(e),
        },
        ExecuteMsg::Vote { id, vote } => match s.vote_outcome(block, id, vote) {
            Ok(b) => Ok(ExecuteResponse::Voted { tally: b.tally() }),
            Err(e) => Err(e),
        },
        ExecuteMsg::VoteReset { id } => match s.reset_outcome(block, id, sender@) {
            Ok(b) => Ok(ExecuteResponse::Reset { tally: b.tally(), caller: sender }),
            Err(e) => Err(e),
        },
    }
}

/// Sets up the contract. Only the admin may instantiate it.
pub fn instantiate(sender: &String, deadline: Deadline) -> (r: Result<VoteState, ContractError>)
    ensures
        (r is Ok) == (sender@ == ADMIN@),
        match r {
            Ok(s) => s.wf() && s@ == initial_state(deadline, s.global.owner) && s.global.owner@ == ADMIN@,
            Err(e) => e == ContractError::Unauthorized,
        },
{
    let admin = ADMIN.to_owned();
    if !sender.eq(&admin) {
        return Err(ContractError::Unauthorized);
    }
    let global = VoteBox { id: 0, yes_count: 0, no_count: 0, deadline, owner: admin };
    let boxes: Vec<VoteBox> = Vec::new();
    let s = VoteState { global, seq: 0, boxes };
    assert(s@.boxes =~= Seq::<VoteBox>::empty());
    Ok(s)
}

/// Casts a vote (`true` for yes, `false` for no) on the record that `id`
/// addresses, and returns the record's new tally.
pub fn execute_vote(state: &mut VoteState, block: &Block, id: Option<u64>, vote: bool) -> (r: Result<Tally, ContractError>)
    requires
        old(state).wf(),
    ensures
        final(state).wf(),
        final(state)@ == old(state)@.after(id, old(state)@.vote_outcome(*block, id, vote)),
        r == tally_result(old(state)@.vote_outcome(*block, id, vote)),
{
    let k: Option<usize> = match id {
        None => None,
        Some(i) => match state.box_index(i) {
            None => return Err(ContractError::NotFound),
            Some(k) => Some(k),
        },
    };
    let b: &VoteBox = match k {
        None => &state.global,
        Some(k) => &state.boxes[k],
    };
    if b.deadline.is_triggered(block) {
        return Err(ContractError::Expired);
    }
    let (yes_count, no_count) = if vote {
        if b.yes_count == u128::MAX {
            return Err(ContractError::Overflow);
        }
        (b.yes_count + 1, b.no_count)
    } else {
        if b.no_count == u128::MAX {
            return Err(ContractError::Overflow);
        }
        (b.yes_count, b.no_count + 1)
    };
    state.set_counts(k, yes_count, no_count);
    Ok(Tally { yes_count, no_count })
}

/// Sets both counters of the record that `id` addresses to zero. Only the
/// record's owner may do so, and only before its deadline; the owner is
/// checked first.
pub fn reset(state: &mut VoteState, block: &Block, sender: &String, id: Option<u64>) -> (r: Result<Tally, ContractError>)
    requires
        old(state).wf(),
    ensures
        final(state).wf(),
        final(state)@ == old(state)@.after(id, old(state)@.reset_outcome(*block, id, sender@)),
        r == tally_result(old(state)@.reset_outcome(*block, id, sender@)),
{
    let k: Option<usize> = match id {
        None => None,
        Some(i) => match state.box_index(i) {
            None => return Err(ContractError::NotFound),
            Some(k) => Some(k),
        },
    };
    let b: &VoteBox = match k {
        None => &state.global,
        Some(k) => &state.boxes[k],
    };
    if !sender.eq(&b.owner) {
        return Err(ContractError::Unauthorized);
    }
    if b.deadline.is_triggered(block) {
        return Err(ContractError::Expired);
    }
    state.set_counts(k, 0, 0);
    Ok(Tally { yes_count: 0, no_count: 0 })
}

/// Creates a vote box with the next id, zero counters, and the given
/// deadline and owner, and returns its id. `owner_valid` is the host's
/// verdict on the owner address.
pub fn create_vote_box(state: &mut VoteState, deadline: Deadline, owner: String, owner_valid: bool) -> (r: Result<u64, ContractError>)
    requires
        old(state).wf(),
    ensures
        final(state).wf(),
        final(state)@ == old(state)@.after_create(old(state)@.create_outcome(deadline, owner, owner_valid)),
        r == id_result(old(state)@.create_outcome(deadline, owner, owner_valid)),
{
    if !owner_valid {
        return Err(ContractError::InvalidAddress);
    }
    if state.seq == u64::MAX {
        return Err(ContractError::Overflow);
    }
    let id = state.seq + 1;
    state.boxes.push(VoteBox { id, yes_count: 0, no_count: 0, deadline, owner });
    state.seq = id;
    Ok(id)
}

/// Runs one command for `sender` in `block`. `owner_valid` is the host's
/// verdict on the owner address of a creation; the other commands ignore it.
pub fn execute(state: &mut VoteState, block: &Block, sender: &String, msg: ExecuteMsg, owner_valid: bool) -> (r: Result<ExecuteResponse, ContractError>)
    requires
        old(state).wf(),
    ensures
        final(state).wf(),
        final(state)@ == execute_state(old(state)@, *block, sender@, msg, owner_valid),
        r == execute_result(old(state)@, *block, *sender, msg, owner_valid),
{
    match msg {
        ExecuteMsg::CreateVoteBox { deadline, owner } => {
            let shown = owner.clone();
            match create_vote_box(state, deadline, owner, owner_valid) {
                Ok(id) => Ok(ExecuteResponse::Created { id, owner: shown }),
                Err(e) => Err(e),
            }
        },
        ExecuteMsg::Vote { id, vote } => match execute_vote(state, block, id, vote) {
            Ok(tally) => Ok(ExecuteResponse::Voted { tally }),
            Err(e) => Err(e),
        },
        ExecuteMsg::VoteReset { id } => match reset(state, block, sender, id) {
            Ok(tally) => Ok(ExecuteResponse::Reset { tally, caller: sender.clone() }),
            Err(e) => Err(e),
        },
    }
}

/// Answers a query. Changes nothing.
pub fn query(state: &VoteState, msg: QueryMsg) -> (r: Result<VoteResponse, ContractError>)
    requires
        state.wf(),
    ensures
        match msg {
            QueryMsg::QueryVote { id } => r == query_result(state@, id),
        },
{
    match msg {
        QueryMsg::QueryVote { id } => query_vote(state, id),
    }
}

/// The current tally and deadline of the record that `id` addresses.
/// Changes nothing, and works on expired records too.
pub fn query_vote(state: &VoteState, id: Option<u64>) -> (r: Result<VoteResponse, ContractError>)
    requires
        state.wf(),
    ensures
        r == query_result(state@, id),
{
    let k: Option<usize> = match id {
        None => None,
        Some(i) => match state.box_index(i) {
            None => return Err(ContractError::NotFound),
            Some(k) => Some(k),
        },
    };
    let b: &VoteBox = match k {
        None => &state.global,
        Some(k) => &state.boxes[k],
    };
    Ok(VoteResponse { yes_count: b.yes_count, no_count: b.no_count, deadline: b.deadline })
}

} // verus!
