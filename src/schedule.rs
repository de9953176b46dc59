//! Deadlines and the block context they are checked against.
use vstd::prelude::*;

verus! {

/// What the contract reads of the block it executes in.
#[derive(Clone, Copy, Debug, PartialEq, Eq, Structural)]
pub struct Block {
    /// Number of blocks preceding this one.
    pub height: u64,
    /// Block time, in nanoseconds since the UNIX epoch.
    pub time: u64,
}

/// A scheduled trigger: a block height, or a block time in nanoseconds
/// since the UNIX epoch.
#[derive(Clone, Copy, Debug, PartialEq, Eq, Structural)]
pub enum Deadline {
    AtHeight(u64),
    AtTime(u64),
}

impl Deadline {
    /// The deadline has passed once the block reaches it (and for every
    /// later block).
    pub open spec fn triggered_at(self, block: Block) -> bool {
        match self {
            Deadline::AtHeight(h) => block.height >= h,
            Deadline::AtTime(t) => block.time >= t,
        }
    }

    /// Whether this deadline has passed at `block`.
    pub fn is_triggered(&self, block: &Block) -> (r: bool)
        ensures
            r == self.triggered_at(*block),
    {
        scheduled_is_triggered(*self, *block)
    }
}

/// Relies on cw_utils::Scheduled::is_triggered: `AtHeight(h)` holds once the
/// block height is at least `h`, `AtTime(t)` once the block time is at least
/// `t` (timestamps compare by their nanoseconds).
#[verifier::external_body]
fn scheduled_is_triggered(deadline: Deadline, block: Block) -> (r: bool)
    ensures
        r == deadline.triggered_at(block),
{
    let scheduled = match deadline {
        Deadline::AtHeight(h) => cw_utils::Scheduled::AtHeight(h),
        Deadline::AtTime(t) => cw_utils::Scheduled::AtTime(cosmwasm_std::Timestamp::from_nanos(t)),
    };
    let info = cosmwasm_std::BlockInfo {
        height: block.height,
        time: cosmwasm_std::Timestamp::from_nanos(block.time),
        chain_id: String::new(),
    };
    scheduled.is_triggered(&info)
}

} // verus!
