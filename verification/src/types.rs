use vstd::prelude::*;

use crate::threshold::ThresholdSpec;

verus! {

/// A single vote choice on a proposal.
#[derive(Clone, Copy, Debug, PartialEq, Eq, Structural)]
pub enum Vote {
    Yes,
    No,
    Abstain,
    Veto,
}

/// Lifecycle state of a proposal. `Open` may move to `Passed` or `Rejected`;
/// `Passed` may move to `Executed`; `Rejected` and `Executed` are terminal.
#[derive(Clone, Copy, Debug, PartialEq, Eq, Structural)]
pub enum Status {
    Open,
    Passed,
    Rejected,
    Executed,
}

/// A voting deadline: a block height or a timestamp, whichever clock the
/// surrounding chain measures the proposal against.
#[derive(Clone, Copy, Debug, PartialEq, Eq, Structural)]
pub enum Expiration {
    AtHeight(u64),
    AtTime(u64),
}

/// A voting-period length, counted in blocks or in seconds.
#[derive(Clone, Copy, Debug, PartialEq, Eq, Structural)]
pub enum Duration {
    Height(u64),
    Time(u64),
}

/// The clock of the surrounding runtime at the moment of a call. The engine
/// never reads time itself: every operation is handed the current block.
#[derive(Clone, Copy, Debug, PartialEq, Eq, Structural)]
pub struct BlockInfo {
    pub height: u64,
    pub time: u64,
}

/// A deadline counts as reached once the current height or time equals it.
pub open spec fn spec_is_expired(e: Expiration, b: BlockInfo) -> bool {
    match e {
        Expiration::AtHeight(h) => b.height >= h,
        Expiration::AtTime(t) => b.time >= t,
    }
}

impl Expiration {
    /// Whether the deadline has been reached at the given block.
    pub fn is_expired(&self, block: &BlockInfo) -> (r: bool)
        ensures
            r == spec_is_expired(*self, *block),
    {
        match self {
            Expiration::AtHeight(h) => block.height >= *h,
            Expiration::AtTime(t) => block.time >= *t,
        }
    }
}

/// The deadline reached from `block` after the duration; saturates at the
/// largest representable height or time.
pub open spec fn spec_after(d: Duration, b: BlockInfo) -> Expiration {
    match d {
        Duration::Height(dh) => Expiration::AtHeight(b.height.saturating_add(dh)),
        Duration::Time(dt) => Expiration::AtTime(b.time.saturating_add(dt)),
    }
}

impl Duration {
    /// The deadline this duration yields when it starts at `block`.
    pub fn after(&self, block: &BlockInfo) -> (e: Expiration)
        ensures
            e == spec_after(*self, *block),
    {
        match self {
            Duration::Height(dh) => Expiration::AtHeight(block.height.saturating_add(*dh)),
            Duration::Time(dt) => Expiration::AtTime(block.time.saturating_add(*dt)),
        }
    }
}

/// `e` is no later than `m`. Deadlines on different clocks are incomparable
/// and never count as earlier.
pub open spec fn spec_not_after(e: Expiration, m: Expiration) -> bool {
    match (e, m) {
        (Expiration::AtHeight(h1), Expiration::AtHeight(h2)) => h1 <= h2,
        (Expiration::AtTime(t1), Expiration::AtTime(t2)) => t1 <= t2,
        _ => false,
    }
}

impl Expiration {
    /// Whether this deadline is no later than `m`; deadlines on different
    /// clocks never count as earlier.
    pub fn not_after(&self, m: &Expiration) -> (r: bool)
        ensures
            r == spec_not_after(*self, *m),
    {
        match (self, m) {
            (Expiration::AtHeight(h1), Expiration::AtHeight(h2)) => *h1 <= *h2,
            (Expiration::AtTime(t1), Expiration::AtTime(t2)) => *t1 <= *t2,
            _ => false,
        }
    }
}

/// One opaque action payload of a proposal. The engine never interprets the
/// bytes: it stores them and hands the whole ordered batch to the execution
/// sandbox once the proposal has passed.
#[derive(Debug)]
pub struct Action {
    pub payload: Vec<u8>,
}

impl Clone for Action {
    fn clone(&self) -> (r: Self)
        ensures
            r.payload@ == self.payload@,
    {
        Action { payload: self.payload.clone() }
    }
}

/// Two action batches carry the same payloads in the same order.
pub open spec fn actions_match(a: Seq<Action>, b: Seq<Action>) -> bool {
    a.len() == b.len() && (forall|i: int| 0 <= i < a.len() ==> a[i].payload@ == #[trigger] b[i].payload@)
}

/// One voter's recorded choice on one proposal, with the voter's weight
/// frozen at the time of voting.
#[derive(Debug)]
pub struct Ballot {
    pub proposal_id: u64,
    pub voter: String,
    pub vote: Vote,
    pub weight: u64,
}

impl Clone for Ballot {
    fn clone(&self) -> (r: Self)
        ensures
            r == *self,
    {
        Ballot {
            proposal_id: self.proposal_id,
            voter: self.voter.clone(),
            vote: self.vote,
            weight: self.weight,
        }
    }
}

/// The four accumulated vote weights of one proposal.
#[derive(Clone, Copy, Debug, PartialEq, Eq, Structural)]
pub struct Tally {
    pub yes: u64,
    pub no: u64,
    pub abstain: u64,
    pub veto: u64,
}

/// A named batch of opaque actions under a voting lifecycle. `threshold` and
/// `total_weight` are frozen copies taken when the proposal is created and
/// never re-read from the registry.
#[derive(Debug)]
pub struct Proposal {
    pub id: u64,
    pub proposer: String,
    pub title: String,
    pub description: String,
    pub actions: Vec<Action>,
    pub threshold: ThresholdSpec,
    pub total_weight: u64,
    pub expires: Expiration,
    pub status: Status,
}

/// Accumulated weight of the ballots on proposal `pid` that chose `v`.
pub open spec fn vote_weight(bs: Seq<Ballot>, pid: u64, v: Vote) -> nat
    decreases bs.len(),
{
    if bs.len() == 0 {
        0
    } else {
        vote_weight(bs.drop_last(), pid, v) + (if bs.last().proposal_id == pid
            && bs.last().vote == v {
            bs.last().weight as nat
        } else {
            0
        })
    }
}

/// Accumulated weight of all ballots on proposal `pid`.
pub open spec fn cast_weight(bs: Seq<Ballot>, pid: u64) -> nat
    decreases bs.len(),
{
    if bs.len() == 0 {
        0
    } else {
        cast_weight(bs.drop_last(), pid) + (if bs.last().proposal_id == pid {
            bs.last().weight as nat
        } else {
            0
        })
    }
}

/// The ballots on proposal `pid`, in the order they were recorded.
pub open spec fn ballots_for(bs: Seq<Ballot>, pid: u64) -> Seq<Ballot>
    decreases bs.len(),
{
    if bs.len() == 0 {
        Seq::empty()
    } else {
        ballots_for(bs.drop_last(), pid) + (if bs.last().proposal_id == pid {
            seq![bs.last()]
        } else {
            Seq::empty()
        })
    }
}

/// A sequence without ballots on `pid` contributes no cast weight.
pub proof fn lemma_cast_weight_none(bs: Seq<Ballot>, pid: u64)
    requires
        forall|i: int| 0 <= i < bs.len() ==> (#[trigger] bs[i]).proposal_id != pid,
    ensures
        cast_weight(bs, pid) == 0,
    decreases bs.len(),
{
    if bs.len() > 0 {
        lemma_cast_weight_none(bs.drop_last(), pid);
    }
}

/// Removing one ballot takes exactly its own contribution out of the sum.
pub proof fn lemma_cast_weight_remove(bs: Seq<Ballot>, pid: u64, j: int)
    requires
        0 <= j < bs.len(),
    ensures
        cast_weight(bs.remove(j), pid) == cast_weight(bs, pid) - (if bs[j].proposal_id == pid {
            bs[j].weight as nat
        } else {
            0
        }),
    decreases bs.len(),
{
    if j == bs.len() - 1 {
        assert(bs.remove(j) =~= bs.drop_last());
    } else {
        assert(bs.remove(j).drop_last() =~= bs.drop_last().remove(j));
        assert(bs.remove(j).last() == bs.last());
        lemma_cast_weight_remove(bs.drop_last(), pid, j);
    }
}

/// The cast weight of a prefix never exceeds that of the whole sequence.
pub proof fn lemma_cast_weight_take_le(bs: Seq<Ballot>, pid: u64, i: int)
    requires
        0 <= i <= bs.len(),
    ensures
        cast_weight(bs.take(i), pid) <= cast_weight(bs, pid),
    decreases bs.len() - i,
{
    if i == bs.len() {
        assert(bs.take(i) =~= bs);
    } else {
        assert(bs.take(i + 1).drop_last() =~= bs.take(i));
        lemma_cast_weight_take_le(bs, pid, i + 1);
    }
}

/// The cast weight is the sum of the four per-choice weights.
pub proof fn lemma_cast_is_vote_sum(bs: Seq<Ballot>, pid: u64)
    ensures
        cast_weight(bs, pid) == vote_weight(bs, pid, Vote::Yes) + vote_weight(bs, pid, Vote::No)
            + vote_weight(bs, pid, Vote::Abstain) + vote_weight(bs, pid, Vote::Veto),
    decreases bs.len(),
{
    if bs.len() > 0 {
        lemma_cast_is_vote_sum(bs.drop_last(), pid);
    }
}

} // verus!
