//! The contract's persisted records and the transitions that change them.
use vstd::prelude::*;
use crate::schedule::{Block, Deadline};

verus! {

/// Why a command was refused. A refused command changes nothing.
#[derive(Clone, Copy, Debug, PartialEq, Eq, Structural)]
pub enum ContractError {
    /// The caller is not the record's owner.
    Unauthorized,
    /// The record's deadline has passed.
    Expired,
    /// A counter or the id sequence would exceed its range.
    Overflow,
    /// The host rejected the owner address.
    InvalidAddress,
    /// No record has the requested id.
    NotFound,
}

/// The yes/no counters of one votable unit.
#[derive(Clone, Copy, Debug, PartialEq, Eq, Structural)]
pub struct Tally {
    pub yes_count: u128,
    pub no_count: u128,
}

/// One votable unit: its id, its tally, its deadline and its owner.
/// The global tally has id 0 and the owner `admin`; vote boxes are numbered
/// from 1.
#[derive(Clone, Debug)]
pub struct VoteBox {
    pub id: u64,
    pub yes_count: u128,
    pub no_count: u128,
    pub deadline: Deadline,
    pub owner: String,
}

impl VoteBox {
    pub open spec fn tally(self) -> Tally {
        Tally { yes_count: self.yes_count, no_count: self.no_count }
    }

    /// The same record with the given counters.
    pub open spec fn with_counts(self, yes_count: u128, no_count: u128) -> VoteBox {
        VoteBox { yes_count, no_count, ..self }
    }
}

/// The tally that a command reports: the new record's on success, the error
/// otherwise.
pub open spec fn tally_result(outcome: Result<VoteBox, ContractError>) -> Result<Tally, ContractError> {
    match outcome {
        Ok(b) => Ok(b.tally()),
        Err(e) => Err(e),
    }
}

/// The whole state in mathematical form: the global tally, the id sequence,
/// and the vote boxes, box `i` at position `i - 1`.
pub struct StateModel {
    pub global: VoteBox,
    pub seq: u64,
    pub boxes: Seq<VoteBox>,
}

/// The state of the contract: a global tally and the vote boxes created so
/// far, addressed by an optional id (`None` for the global tally).
pub struct VoteState {
    pub global: VoteBox,
    pub seq: u64,
    pub boxes: Vec<VoteBox>,
}

impl View for VoteState {
    type V = StateModel;

    open spec fn view(&self) -> StateModel {
        StateModel { global: self.global, seq: self.seq, boxes: self.boxes@ }
    }
}

impl StateModel {
    /// The sequence counts the boxes, and box `i` sits at position `i - 1`.
    pub open spec fn wf(self) -> bool {
        &&& self.seq == self.boxes.len()
        &&& forall|i: int| 0 <= i < self.boxes.len() ==> (#[trigger] self.boxes[i]).id == i + 1
    }

    /// Whether a box with this id exists.
    pub open spec fn has_box(self, i: u64) -> bool {
        1 <= i <= self.boxes.len()
    }

    /// The record that `id` addresses, if there is one.
    pub open spec fn record(self, id: Option<u64>) -> Option<VoteBox> {
        match id {
            None => Some(self.global),
            Some(i) => if self.has_box(i) {
                Some(self.boxes[i - 1])
            } else {
                None
            },
        }
    }

    /// The state with the record that `id` addresses replaced by `b`.
    pub open spec fn with_record(self, id: Option<u64>, b: VoteBox) -> StateModel {
        match id {
            None => StateModel { global: b, ..self },
            Some(i) => StateModel { boxes: self.boxes.update(i - 1, b), ..self },
        }
    }

    /// `None`, or a position in `boxes`.
    pub open spec fn valid_position(self, k: Option<usize>) -> bool {
        match k {
            Some(k) => k < self.boxes.len(),
            None => true,
        }
    }

    /// The record with id `k + 1`, or the global one, given new counters.
    pub open spec fn with_counts_at(self, k: Option<usize>, yes_count: u128, no_count: u128) -> StateModel {
        match k {
            None => self.with_record(None, self.global.with_counts(yes_count, no_count)),
            Some(k) => self.with_record(Some((k + 1) as u64), self.boxes[k as int].with_counts(yes_count, no_count)),
        }
    }

    /// The state after a command on `id` that produced `outcome`: the new
    /// record on success, the state unchanged on failure.
    pub open spec fn after(self, id: Option<u64>, outcome: Result<VoteBox, ContractError>) -> StateModel {
        match outcome {
            Ok(b) => self.with_record(id, b),
            Err(_) => self,
        }
    }

    /// A vote on `id`: refused when the record is missing, its deadline has
    /// passed, or the chosen counter is at its maximum; otherwise exactly the
    /// chosen counter grows by one.
    pub open spec fn vote_outcome(self, block: Block, id: Option<u64>, vote: bool) -> Result<VoteBox, ContractError> {
        match self.record(id) {
            None => Err(ContractError::NotFound),
            Some(b) => if b.deadline.triggered_at(block) {
                Err(ContractError::Expired)
            } else if vote {
                if b.yes_count == u128::MAX {
                    Err(ContractError::Overflow)
                } else {
                    Ok(b.with_counts((b.yes_count + 1) as u128, b.no_count))
                }
            } else {
                if b.no_count == u128::MAX {
                    Err(ContractError::Overflow)
                } else {
                    Ok(b.with_counts(b.yes_count, (b.no_count + 1) as u128))
                }
            },
        }
    }

    /// A reset of `id` by `sender`: refused when the record is missing, when
    /// the sender is not its owner, and then when its deadline has passed;
    /// otherwise both counters become zero.
    pub open spec fn reset_outcome(self, block: Block, id: Option<u64>, sender: Seq<char>) -> Result<VoteBox, ContractError> {
        match self.record(id) {
            None => Err(ContractError::NotFound),
            Some(b) => if sender != b.owner@ {
                Err(ContractError::Unauthorized)
            } else if b.deadline.triggered_at(block) {
                Err(ContractError::Expired)
            } else {
                Ok(b.with_counts(0, 0))
            },
        }
    }

    /// The box that a creation makes: the next id, zero counters, the given
    /// deadline and owner; refused when the host rejected the owner address
    /// or the sequence is exhausted.
    pub open spec fn create_outcome(self, deadline: Deadline, owner: String, owner_valid: bool) -> Result<VoteBox, ContractError> {
        if !owner_valid {
            Err(ContractError::InvalidAddress)
        } else if self.seq == u64::MAX {
            Err(ContractError::Overflow)
        } else {
            Ok(VoteBox { id: (self.seq + 1) as u64, yes_count: 0, no_count: 0, deadline, owner })
        }
    }

    /// The state after a creation that produced `outcome`.
    pub open spec fn after_create(self, outcome: Result<VoteBox, ContractError>) -> StateModel {
        match outcome {
            Ok(b) => StateModel { seq: b.id, boxes: self.boxes.push(b), ..self },
            Err(_) => self,
        }
    }
}

impl VoteState {
    pub open spec fn wf(&self) -> bool {
        self@.wf()
    }

    /// Whether the sequence counts the boxes and each box sits at the
    /// position its id names; a state read back from storage is checked so.
    pub fn is_well_formed(&self) -> (r: bool)
        ensures
            r == self.wf(),
    {
        if self.seq != self.boxes.len() as u64 {
            return false;
        }
        let mut k: usize = 0;
        while k < self.boxes.len()
            invariant
                self.seq == self.boxes.len(),
                k <= self.boxes.len(),
                forall|i: int| 0 <= i < k ==> (#[trigger] self.boxes@[i]).id == i + 1,
            decreases self.boxes.len() - k,
        {
            if self.boxes[k].id != k as u64 + 1 {
                return false;
            }
            k = k + 1;
        }
        true
    }

    /// Position in `boxes` of the record with id `i`, if there is one.
    pub(crate) fn box_index(&self, i: u64) -> (r: Option<usize>)
        requires
            self.wf(),
        ensures
            match r {
                Some(k) => self@.has_box(i) && k == i - 1,
                None => !self@.has_box(i),
            },
    {
        if i >= 1 && i - 1 < self.boxes.len() as u64 {
            Some((i - 1) as usize)
        } else {
            None
        }
    }

    /// Sets the counters of the global tally (`None`) or of the box at
    /// position `k`, and nothing else.
    pub(crate) fn set_counts(&mut self, k: Option<usize>, yes_count: u128, no_count: u128)
        requires
            old(self).wf(),
            old(self)@.valid_position(k),
        ensures
            final(self).wf(),
            final(self)@ == old(self)@.with_counts_at(k, yes_count, no_count),
    {
        match k {
            None => {
                self.global.yes_count = yes_count;
                self.global.no_count = no_count;
                assert(self.global == old(self).global.with_counts(yes_count, no_count));
                assert(self@ == old(self)@.with_counts_at(None, yes_count, no_count));
            },
            Some(k) => {
                self.boxes[k].yes_count = yes_count;
                self.boxes[k].no_count = no_count;
                assert(self.boxes@ =~= old(self).boxes@.update(
                    k as int,
                    old(self).boxes@[k as int].with_counts(yes_count, no_count),
                ));
            },
        }
    }
}

} // verus!
