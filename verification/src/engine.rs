use vstd::prelude::*;

use crate::error::ContractError;
use crate::registry::VoterEntry;
use crate::registry::VoterRegistry;
use crate::registry::ballots_distinct;
use crate::registry::ballots_registered;
use crate::registry::first_voter_error;
use crate::registry::lemma_cast_weight_le_total;
use crate::registry::lemma_reg_total_prefix_le;
use crate::registry::lemma_voter_error_none;
use crate::registry::reg_has;
use crate::registry::reg_total;
use crate::registry::reg_total_prefix;
use crate::registry::reg_weight;
use crate::threshold::ThresholdSpec;
use crate::threshold::evaluate;
use crate::threshold::spec_evaluate;
use crate::types::Action;
use crate::types::Ballot;
use crate::types::BlockInfo;
use crate::types::Duration;
use crate::types::Expiration;
use crate::types::Proposal;
use crate::types::Status;
use crate::types::Tally;
use crate::types::Vote;
use crate::types::actions_match;
use crate::types::cast_weight;
use crate::types::lemma_cast_is_vote_sum;
use crate::types::lemma_cast_weight_take_le;
use crate::types::spec_after;
use crate::types::spec_is_expired;
use crate::types::spec_not_after;
use crate::types::vote_weight;

verus! {

/// A proposal with only its lifecycle status replaced.
pub open spec fn with_status(p: Proposal, s: Status) -> Proposal {
    Proposal { status: s, ..p }
}

/// The deadline a new proposal receives: the one the configured maximum
/// voting period yields, unless an explicit deadline is given that is no
/// later than that maximum, in which case the explicit one is kept.
pub open spec fn spec_chosen_expiry(d: Duration, latest: Option<Expiration>, b: BlockInfo) -> Expiration {
    let max = spec_after(d, b);
    match latest {
        None => max,
        Some(e) => if spec_not_after(e, max) {
            e
        } else {
            max
        },
    }
}

/// The construction-time fault of the engine input, if any: an empty
/// registry, then the first zero-weight or duplicated voter entry in input
/// order, then an unsatisfiable threshold policy.
pub open spec fn spec_construction_error(vs: Seq<VoterEntry>, ts: ThresholdSpec) -> Option<
    ContractError,
> {
    if vs.len() == 0 {
        Some(ContractError::EmptyRegistry)
    } else if first_voter_error(vs, 0) is Some {
        first_voter_error(vs, 0)
    } else if !ts.spec_valid(reg_total(vs) as u64) {
        Some(ContractError::InvalidThreshold)
    } else {
        None
    }
}

/// The voting engine: the immutable voter registry, the configured policy,
/// and the proposal and ballot tables it exclusively owns. Every operation
/// runs to completion against this state; nothing else mutates it.
#[derive(Debug)]
pub struct Multisig {
    pub registry: VoterRegistry,
    pub threshold: ThresholdSpec,
    pub max_voting_period: Duration,
    pub allow_empty_batch: bool,
    pub proposals: Vec<Proposal>,
    pub ballots: Vec<Ballot>,
}

impl Multisig {
    /// The engine's invariant, established at construction and preserved by
    /// every operation.
    pub open spec fn wf(self) -> bool {
        &&& self.registry.wf()
        &&& self.threshold.spec_valid(self.registry.total)
        &&& forall|i: int|
            0 <= i < self.proposals@.len() ==> (#[trigger] self.proposals@[i]).id == i + 1
                && self.proposals@[i].total_weight == self.registry.total
                && self.proposals@[i].threshold == self.threshold
        &&& ballots_distinct(self.ballots@)
        &&& ballots_registered(self.ballots@, self.registry.voters@)
        &&& forall|i: int|
            0 <= i < self.ballots@.len() ==> 1 <= (#[trigger] self.ballots@[i]).proposal_id
                <= self.proposals@.len()
    }

    /// The configuration and registry are the same in both states.
    pub open spec fn same_config(self, other: Multisig) -> bool {
        &&& self.registry == other.registry
        &&& self.threshold == other.threshold
        &&& self.max_voting_period == other.max_voting_period
        &&& self.allow_empty_batch == other.allow_empty_batch
    }

    /// The address belongs to a registered voter.
    pub open spec fn spec_is_voter(self, a: Seq<char>) -> bool {
        reg_has(self.registry.voters@, a)
    }

    /// The registered weight of the address.
    pub open spec fn spec_voter_weight(self, a: Seq<char>) -> u64 {
        reg_weight(self.registry.voters@, a)
    }

    /// A proposal exists under this id.
    pub open spec fn spec_has_proposal(self, id: u64) -> bool {
        1 <= id <= self.proposals@.len()
    }

    /// The proposal stored under this id.
    pub open spec fn spec_proposal(self, id: u64) -> Proposal {
        self.proposals@[id - 1]
    }

    /// A ballot exists for this proposal and voter.
    pub open spec fn spec_has_ballot(self, id: u64, a: Seq<char>) -> bool {
        exists|i: int|
            0 <= i < self.ballots@.len() && (#[trigger] self.ballots@[i]).proposal_id == id
                && self.ballots@[i].voter@ == a
    }

    /// The status the threshold policy yields for proposal `id` on the
    /// ballots currently stored.
    pub open spec fn spec_tally_status(self, id: u64) -> Status {
        spec_evaluate(
            self.spec_proposal(id).threshold,
            vote_weight(self.ballots@, id, Vote::Yes) as int,
            vote_weight(self.ballots@, id, Vote::No) as int,
            vote_weight(self.ballots@, id, Vote::Abstain) as int,
            vote_weight(self.ballots@, id, Vote::Veto) as int,
            self.spec_proposal(id).total_weight,
        )
    }

    /// Law: at most one ballot exists per (proposal, voter) pair. Two
    /// distinct stored ballots on the same proposal always name different
    /// voters.
    pub proof fn lemma_one_ballot_per_voter(self, i: int, j: int)
        requires
            self.wf(),
            0 <= i < self.ballots@.len(),
            0 <= j < self.ballots@.len(),
            i != j,
            self.ballots@[i].proposal_id == self.ballots@[j].proposal_id,
        ensures
            self.ballots@[i].voter@ != self.ballots@[j].voter@,
    {
    }

    /// Builds the engine. Fails with `EmptyRegistry` on an empty voter
    /// list, `ZeroWeight` or `DuplicateVoter` on the first bad entry in
    /// input order, and `InvalidThreshold` when the policy is unsatisfiable
    /// against the total weight. The sum of the weights must fit the cached
    /// total's machine width.
    pub fn new(
        voters: Vec<VoterEntry>,
        threshold: ThresholdSpec,
        max_voting_period: Duration,
        allow_empty_batch: bool,
    ) -> (r: Result<Multisig, ContractError>)
        requires
            reg_total(voters@) <= u64::MAX,
        ensures
            match spec_construction_error(voters@, threshold) {
                Some(e) => r == Err::<Multisig, ContractError>(e),
                None => ({
                    &&& r matches Ok(ms)
                    &&& ms.wf()
                    &&& ms.registry.voters@ == voters@
                    &&& ms.registry.total == reg_total(voters@)
                    &&& ms.threshold == threshold
                    &&& ms.max_voting_period == max_voting_period
                    &&& ms.allow_empty_batch == allow_empty_batch
                    &&& ms.proposals@.len() == 0
                    &&& ms.ballots@.len() == 0
                }),
            },
    {
        let n = voters.len();
        if n == 0 {
            return Err(ContractError::EmptyRegistry);
        }
        let mut i: usize = 0;
        while i < n
            invariant
                n == voters@.len(),
                0 <= i <= n,
                first_voter_error(voters@, 0) == first_voter_error(voters@, i as int),
            decreases n - i,
        {
            if voters[i].weight == 0 {
                return Err(ContractError::ZeroWeight);
            }
            let mut j: usize = 0;
            while j < i
                invariant
                    n == voters@.len(),
                    0 <= j <= i < n,
                    voters@[i as int].weight != 0,
                    first_voter_error(voters@, 0) == first_voter_error(voters@, i as int),
                    forall|t: int| 0 <= t < j ==> (#[trigger] voters@[t]).addr@ != voters@[
                        i as int
                    ].addr@,
                decreases i - j,
            {
                if voters[j].addr == voters[i].addr {
                    return Err(ContractError::DuplicateVoter);
                }
                j = j + 1;
            }
            i = i + 1;
        }
        proof {
            lemma_voter_error_none(voters@);
        }
        let mut total: u64 = 0;
        let mut k: usize = 0;
        while k < n
            invariant
                n == voters@.len(),
                0 <= k <= n,
                total == reg_total_prefix(voters@, k as int),
                reg_total(voters@) <= u64::MAX,
            decreases n - k,
        {
            proof {
                lemma_reg_total_prefix_le(voters@, k as int + 1);
            }
            total = total + voters[k].weight;
            k = k + 1;
        }
        if !threshold.validate(total) {
            return Err(ContractError::InvalidThreshold);
        }
        Ok(
            Multisig {
                registry: VoterRegistry { voters, total },
                threshold,
                max_voting_period,
                allow_empty_batch,
                proposals: Vec::new(),
                ballots: Vec::new(),
            },
        )
    }

    /// Replaces the status of the proposal at table index `idx`, leaving
    /// every other field and table untouched.
    fn set_status(&mut self, idx: usize, s: Status)
        requires
            idx < old(self).proposals@.len(),
        ensures
            final(self).proposals@ == old(self).proposals@.update(
                idx as int,
                with_status(old(self).proposals@[idx as int], s),
            ),
            final(self).ballots == old(self).ballots,
            final(self).same_config(*old(self)),
    {
        let p = self.proposals.remove(idx);
        let p2 = Proposal { status: s, ..p };
        self.proposals.insert(idx, p2);
        proof {
            assert(self.proposals@ =~= old(self).proposals@.update(
                idx as int,
                with_status(old(self).proposals@[idx as int], s),
            ));
        }
    }

    /// The index of the stored ballot for this proposal and voter, if one
    /// exists.
    pub(crate) fn find_ballot_index(&self, proposal_id: u64, voter: &String) -> (r: Option<usize>)
        ensures
            match r {
                Some(i) => i < self.ballots@.len() && self.ballots@[i as int].proposal_id
                    == proposal_id && self.ballots@[i as int].voter@ == voter@,
                None => !self.spec_has_ballot(proposal_id, voter@),
            },
    {
        let n = self.ballots.len();
        let mut i: usize = 0;
        while i < n
            invariant
                n == self.ballots@.len(),
                0 <= i <= n,
                forall|t: int|
                    0 <= t < i ==> !((#[trigger] self.ballots@[t]).proposal_id == proposal_id
                        && self.ballots@[t].voter@ == voter@),
            decreases n - i,
        {
            if self.ballots[i].proposal_id == proposal_id && self.ballots[i].voter == *voter {
                return Some(i);
            }
            i = i + 1;
        }
        None
    }

    /// Recomputes the four vote weights of proposal `proposal_id` by
    /// summing the stored ballots. Their sum never exceeds the registry's
    /// total weight.
    pub fn tally_ballots(&self, proposal_id: u64) -> (t: Tally)
        requires
            self.wf(),
        ensures
            t.yes == vote_weight(self.ballots@, proposal_id, Vote::Yes),
            t.no == vote_weight(self.ballots@, proposal_id, Vote::No),
            t.abstain == vote_weight(self.ballots@, proposal_id, Vote::Abstain),
            t.veto == vote_weight(self.ballots@, proposal_id, Vote::Veto),
            t.yes + t.no + t.abstain + t.veto == cast_weight(self.ballots@, proposal_id),
            cast_weight(self.ballots@, proposal_id) <= self.registry.total,
    {
        proof {
            lemma_cast_weight_le_total(self.ballots@, self.registry.voters@, proposal_id);
            lemma_cast_is_vote_sum(self.ballots@, proposal_id);
        }
        let n = self.ballots.len();
        let mut yes: u64 = 0;
        let mut no: u64 = 0;
        let mut abstain: u64 = 0;
        let mut veto: u64 = 0;
        let mut i: usize = 0;
        while i < n
            invariant
                self.wf(),
                n == self.ballots@.len(),
                0 <= i <= n,
                yes == vote_weight(self.ballots@.take(i as int), proposal_id, Vote::Yes),
                no == vote_weight(self.ballots@.take(i as int), proposal_id, Vote::No),
                abstain == vote_weight(self.ballots@.take(i as int), proposal_id, Vote::Abstain),
                veto == vote_weight(self.ballots@.take(i as int), proposal_id, Vote::Veto),
                yes + no + abstain + veto == cast_weight(self.ballots@.take(i as int), proposal_id),
                cast_weight(self.ballots@, proposal_id) <= self.registry.total,
            decreases n - i,
        {
            proof {
                assert(self.ballots@.take(i as int + 1).drop_last() =~= self.ballots@.take(
                    i as int,
                ));
                assert(self.ballots@.take(i as int + 1).last() == self.ballots@[i as int]);
                lemma_cast_weight_take_le(self.ballots@, proposal_id, i as int + 1);
                lemma_cast_is_vote_sum(self.ballots@.take(i as int + 1), proposal_id);
                lemma_cast_is_vote_sum(self.ballots@.take(i as int), proposal_id);
            }
            let bp = self.ballots[i].proposal_id;
            let bv = self.ballots[i].vote;
            let bw = self.ballots[i].weight;
            if bp == proposal_id {
                match bv {
                    Vote::Yes => {
                        yes = yes + bw;
                    },
                    Vote::No => {
                        no = no + bw;
                    },
                    Vote::Abstain => {
                        abstain = abstain + bw;
                    },
                    Vote::Veto => {
                        veto = veto + bw;
                    },
                }
            }
            i = i + 1;
        }
        proof {
            assert(self.ballots@.take(n as int) =~= self.ballots@);
        }
        Tally { yes, no, abstain, veto }
    }

    /// Opens a proposal: stores the batch under the next id with the frozen
    /// policy and total weight, casts the proposer's own yes ballot in the
    /// same transaction, and evaluates the policy at once, so a proposer
    /// whose weight alone satisfies it opens the proposal already passed.
    ///
    /// Fails with `Unauthorized` for a proposer outside the registry and
    /// with `EmptyBatch` for an empty batch where the engine disallows one.
    pub fn propose(
        &mut self,
        proposer: &String,
        title: String,
        description: String,
        actions: Vec<Action>,
        latest: Option<Expiration>,
        block: &BlockInfo,
    ) -> (r: Result<u64, ContractError>)
        requires
            old(self).wf(),
            old(self).proposals@.len() < u64::MAX,
        ensures
            final(self).wf(),
            final(self).same_config(*old(self)),
            !old(self).spec_is_voter(proposer@) ==> r == Err::<u64, ContractError>(
                ContractError::Unauthorized,
            ) && *final(self) == *old(self),
            old(self).spec_is_voter(proposer@) && actions@.len() == 0 && !old(
                self,
            ).allow_empty_batch ==> r == Err::<u64, ContractError>(ContractError::EmptyBatch)
                && *final(self) == *old(self),
            old(self).spec_is_voter(proposer@) && (actions@.len() > 0 || old(
                self,
            ).allow_empty_batch) ==> ({
                let id = (old(self).proposals@.len() + 1) as u64;
                let w = old(self).spec_voter_weight(proposer@);
                &&& r == Ok::<u64, ContractError>(id)
                &&& final(self).proposals@.len() == old(self).proposals@.len() + 1
                &&& forall|k: int|
                    0 <= k < old(self).proposals@.len() ==> final(self).proposals@[k] == old(
                        self,
                    ).proposals@[k]
                &&& final(self).proposals@.last().id == id
                &&& final(self).proposals@.last().proposer == *proposer
                &&& final(self).proposals@.last().title == title
                &&& final(self).proposals@.last().description == description
                &&& final(self).proposals@.last().actions == actions
                &&& final(self).proposals@.last().threshold == old(self).threshold
                &&& final(self).proposals@.last().total_weight == old(self).registry.total
                &&& final(self).proposals@.last().expires == spec_chosen_expiry(
                    old(self).max_voting_period,
                    latest,
                    *block,
                )
                &&& final(self).proposals@.last().status == spec_evaluate(
                    old(self).threshold,
                    w as int,
                    0,
                    0,
                    0,
                    old(self).registry.total,
                )
                &&& final(self).ballots@ == old(self).ballots@.push(
                    Ballot { proposal_id: id, voter: *proposer, vote: Vote::Yes, weight: w },
                )
            }),
    {
        let w = match self.registry.weight_of(proposer) {
            None => {
                return Err(ContractError::Unauthorized);
            },
            Some(w) => w,
        };
        if actions.len() == 0 && !self.allow_empty_batch {
            return Err(ContractError::EmptyBatch);
        }
        let max_exp = self.max_voting_period.after(block);
        let expires = match latest {
            None => max_exp,
            Some(e) => {
                if e.not_after(&max_exp) {
                    e
                } else {
                    max_exp
                }
            },
        };
        let id = (self.proposals.len() as u64) + 1;
        proof {
            // a single voter's weight is part of the registry's total
            let k = choose|k: int|
                0 <= k < self.registry.voters@.len() && (#[trigger] self.registry.voters@[k]).addr@
                    == proposer@;
            lemma_reg_total_prefix_le(self.registry.voters@, k + 1);
        }
        let tally = Tally { yes: w, no: 0, abstain: 0, veto: 0 };
        let status = evaluate(&self.threshold, &tally, self.registry.total);
        let prop = Proposal {
            id,
            proposer: proposer.clone(),
            title,
            description,
            actions,
            threshold: self.threshold,
            total_weight: self.registry.total,
            expires,
            status,
        };
        self.proposals.push(prop);
        self.ballots.push(
            Ballot { proposal_id: id, voter: proposer.clone(), vote: Vote::Yes, weight: w },
        );
        Ok(id)
    }

    /// Casts a ballot on an open, unexpired proposal, then re-evaluates the
    /// policy on the new tally and stores the outcome.
    ///
    /// Fails with `Unauthorized` for a stranger, `NotFound` for an unknown
    /// id, `Expired` at or past the deadline (finalizing a still-open
    /// proposal as `Rejected` on the way), `WrongStatus` on a decided
    /// proposal, and `AlreadyVoted` on a duplicate ballot, leaving the
    /// tables unchanged in every failing case but the expired-open one.
    pub fn vote(&mut self, voter: &String, proposal_id: u64, choice: Vote, block: &BlockInfo) -> (r:
        Result<(), ContractError>)
        requires
            old(self).wf(),
        ensures
            final(self).wf(),
            final(self).same_config(*old(self)),
            !old(self).spec_is_voter(voter@) ==> r == Err::<(), ContractError>(
                ContractError::Unauthorized,
            ) && *final(self) == *old(self),
            old(self).spec_is_voter(voter@) && !old(self).spec_has_proposal(proposal_id) ==> r
                == Err::<(), ContractError>(ContractError::NotFound) && *final(self) == *old(self),
            ({
                let p = old(self).spec_proposal(proposal_id);
                &&& old(self).spec_is_voter(voter@) && old(self).spec_has_proposal(proposal_id)
                    && spec_is_expired(p.expires, *block) ==> r == Err::<(), ContractError>(
                    ContractError::Expired,
                ) && final(self).ballots == old(self).ballots && (if p.status == Status::Open {
                    final(self).proposals@ == old(self).proposals@.update(
                        proposal_id - 1,
                        with_status(p, Status::Rejected),
                    )
                } else {
                    *final(self) == *old(self)
                })
                &&& old(self).spec_is_voter(voter@) && old(self).spec_has_proposal(proposal_id)
                    && !spec_is_expired(p.expires, *block) && p.status != Status::Open ==> r
                    == Err::<(), ContractError>(ContractError::WrongStatus) && *final(self) == *old(self)
                &&& old(self).spec_is_voter(voter@) && old(self).spec_has_proposal(proposal_id)
                    && !spec_is_expired(p.expires, *block) && p.status == Status::Open && old(
                    self,
                ).spec_has_ballot(proposal_id, voter@) ==> r == Err::<(), ContractError>(
                    ContractError::AlreadyVoted,
                ) && *final(self) == *old(self)
                &&& old(self).spec_is_voter(voter@) && old(self).spec_has_proposal(proposal_id)
                    && !spec_is_expired(p.expires, *block) && p.status == Status::Open && !old(
                    self,
                ).spec_has_ballot(proposal_id, voter@) ==> ({
                    let b = Ballot {
                        proposal_id,
                        voter: *voter,
                        vote: choice,
                        weight: old(self).spec_voter_weight(voter@),
                    };
                    &&& r == Ok::<(), ContractError>(())
                    &&& final(self).ballots@ == old(self).ballots@.push(b)
                    &&& final(self).proposals@ == old(self).proposals@.update(
                        proposal_id - 1,
                        with_status(p, final(self).spec_tally_status(proposal_id)),
                    )
                })
            }),
    {
        let w = match self.registry.weight_of(voter) {
            None => {
                return Err(ContractError::Unauthorized);
            },
            Some(w) => w,
        };
        if proposal_id == 0 || proposal_id > (self.proposals.len() as u64) {
            return Err(ContractError::NotFound);
        }
        let idx: usize = (proposal_id - 1) as usize;
        let expired = self.proposals[idx].expires.is_expired(block);
        let st = self.proposals[idx].status;
        if expired {
            match st {
                Status::Open => {
                    self.set_status(idx, Status::Rejected);
                },
                _ => {},
            }
            return Err(ContractError::Expired);
        }
        match st {
            Status::Open => {},
            _ => {
                return Err(ContractError::WrongStatus);
            },
        }
        match self.find_ballot_index(proposal_id, voter) {
            Some(_) => {
                return Err(ContractError::AlreadyVoted);
            },
            None => {},
        }
        self.ballots.push(
            Ballot { proposal_id, voter: voter.clone(), vote: choice, weight: w },
        );
        let t = self.tally_ballots(proposal_id);
        let ts = self.proposals[idx].threshold;
        let tw = self.proposals[idx].total_weight;
        let new_st = evaluate(&ts, &t, tw);
        self.set_status(idx, new_st);
        Ok(())
    }

    /// Validates that proposal `proposal_id` may execute now and hands back
    /// a copy of its action batch for the surrounding runtime to dispatch
    /// as one atomic unit; the status itself only moves to `Executed` once
    /// `confirm_execution` reports the dispatch outcome. Anyone may call
    /// this: passing the threshold, not the caller's identity, authorizes
    /// execution.
    ///
    /// Succeeds exactly on a passed, unexpired proposal. An executed,
    /// rejected or open proposal fails with `WrongStatus` — so a batch is
    /// never handed out twice — and a still-open expired one is finalized
    /// as `Rejected` on the way; a passed proposal past its deadline fails
    /// with `Expired` and stays passed, unexecutable forever.
    pub fn execute(&mut self, proposal_id: u64, block: &BlockInfo) -> (r: Result<
        Vec<Action>,
        ContractError,
    >)
        requires
            old(self).wf(),
        ensures
            final(self).wf(),
            final(self).same_config(*old(self)),
            final(self).ballots == old(self).ballots,
            !old(self).spec_has_proposal(proposal_id) ==> r == Err::<Vec<Action>, ContractError>(
                ContractError::NotFound,
            ) && *final(self) == *old(self),
            ({
                let p = old(self).spec_proposal(proposal_id);
                &&& old(self).spec_has_proposal(proposal_id) && p.status == Status::Open ==> r
                    == Err::<Vec<Action>, ContractError>(ContractError::WrongStatus) && (
                if spec_is_expired(p.expires, *block) {
                    final(self).proposals@ == old(self).proposals@.update(
                        proposal_id - 1,
                        with_status(p, Status::Rejected),
                    )
                } else {
                    *final(self) == *old(self)
                })
                &&& old(self).spec_has_proposal(proposal_id) && (p.status == Status::Rejected
                    || p.status == Status::Executed) ==> r == Err::<Vec<Action>, ContractError>(
                    ContractError::WrongStatus,
                ) && *final(self) == *old(self)
                &&& old(self).spec_has_proposal(proposal_id) && p.status == Status::Passed
                    && spec_is_expired(p.expires, *block) ==> r == Err::<
                    Vec<Action>,
                    ContractError,
                >(ContractError::Expired) && *final(self) == *old(self)
                &&& old(self).spec_has_proposal(proposal_id) && p.status == Status::Passed
                    && !spec_is_expired(p.expires, *block) ==> (r matches Ok(acts)
                    && actions_match(acts@, p.actions@)) && *final(self) == *old(self)
            }),
    {
        if proposal_id == 0 || proposal_id > (self.proposals.len() as u64) {
            return Err(ContractError::NotFound);
        }
        let idx: usize = (proposal_id - 1) as usize;
        let expired = self.proposals[idx].expires.is_expired(block);
        let st = self.proposals[idx].status;
        match st {
            Status::Open => {
                if expired {
                    self.set_status(idx, Status::Rejected);
                }
                Err(ContractError::WrongStatus)
            },
            Status::Rejected | Status::Executed => Err(ContractError::WrongStatus),
            Status::Passed => {
                if expired {
                    return Err(ContractError::Expired);
                }
                let acts = self.clone_batch(idx);
                Ok(acts)
            },
        }
    }

    /// A copy of the action batch of the proposal at table index `idx`.
    pub(crate) fn clone_batch(&self, idx: usize) -> (r: Vec<Action>)
        requires
            idx < self.proposals@.len(),
        ensures
            actions_match(r@, self.proposals@[idx as int].actions@),
    {
        let n = self.proposals[idx].actions.len();
        let mut out: Vec<Action> = Vec::new();
        let mut i: usize = 0;
        while i < n
            invariant
                idx < self.proposals@.len(),
                n == self.proposals@[idx as int].actions@.len(),
                0 <= i <= n,
                out@.len() == i,
                forall|t: int|
                    0 <= t < i ==> (#[trigger] out@[t]).payload@ == self.proposals@[
                        idx as int
                    ].actions@[t].payload@,
            decreases n - i,
        {
            out.push(self.proposals[idx].actions[i].clone());
            i = i + 1;
        }
        out
    }

    /// Commits or rolls back an execution: the surrounding runtime reports
    /// whether the sandbox applied the batch handed out by `execute`. On
    /// success the proposal becomes `Executed`; on failure it stays
    /// `Passed`, the whole operation fails with `ExternalFailure`, and the
    /// caller may retry.
    pub fn confirm_execution(&mut self, proposal_id: u64, dispatched: bool) -> (r: Result<
        (),
        ContractError,
    >)
        requires
            old(self).wf(),
        ensures
            final(self).wf(),
            final(self).same_config(*old(self)),
            final(self).ballots == old(self).ballots,
            !old(self).spec_has_proposal(proposal_id) ==> r == Err::<(), ContractError>(
                ContractError::NotFound,
            ) && *final(self) == *old(self),
            old(self).spec_has_proposal(proposal_id) && old(self).spec_proposal(
                proposal_id,
            ).status != Status::Passed ==> r == Err::<(), ContractError>(
                ContractError::WrongStatus,
            ) && *final(self) == *old(self),
            old(self).spec_has_proposal(proposal_id) && old(self).spec_proposal(
                proposal_id,
            ).status == Status::Passed && !dispatched ==> r == Err::<(), ContractError>(
                ContractError::ExternalFailure,
            ) && *final(self) == *old(self),
            old(self).spec_has_proposal(proposal_id) && old(self).spec_proposal(
                proposal_id,
            ).status == Status::Passed && dispatched ==> r == Ok::<(), ContractError>(())
                && final(self).proposals@ == old(self).proposals@.update(
                proposal_id - 1,
                with_status(old(self).spec_proposal(proposal_id), Status::Executed),
            ),
    {
        if proposal_id == 0 || proposal_id > (self.proposals.len() as u64) {
            return Err(ContractError::NotFound);
        }
        let idx: usize = (proposal_id - 1) as usize;
        let st = self.proposals[idx].status;
        match st {
            Status::Passed => {},
            _ => {
                return Err(ContractError::WrongStatus);
            },
        }
        if !dispatched {
            return Err(ContractError::ExternalFailure);
        }
        self.set_status(idx, Status::Executed);
        Ok(())
    }

    /// Force-finalizes an open proposal whose deadline has been reached,
    /// moving it to `Rejected` so its terminal state is observable without
    /// another vote or execute attempt. Anyone may call this. Fails with
    /// `WrongStatus` on a decided proposal and `NotExpired` before the
    /// deadline.
    pub fn close(&mut self, proposal_id: u64, block: &BlockInfo) -> (r: Result<(), ContractError>)
        requires
            old(self).wf(),
        ensures
            final(self).wf(),
            final(self).same_config(*old(self)),
            final(self).ballots == old(self).ballots,
            !old(self).spec_has_proposal(proposal_id) ==> r == Err::<(), ContractError>(
                ContractError::NotFound,
            ) && *final(self) == *old(self),
            old(self).spec_has_proposal(proposal_id) && old(self).spec_proposal(
                proposal_id,
            ).status != Status::Open ==> r == Err::<(), ContractError>(ContractError::WrongStatus)
                && *final(self) == *old(self),
            old(self).spec_has_proposal(proposal_id) && old(self).spec_proposal(
                proposal_id,
            ).status == Status::Open && !spec_is_expired(
                old(self).spec_proposal(proposal_id).expires,
                *block,
            ) ==> r == Err::<(), ContractError>(ContractError::NotExpired) && *final(self) == *old(self),
            old(self).spec_has_proposal(proposal_id) && old(self).spec_proposal(
                proposal_id,
            ).status == Status::Open && spec_is_expired(
                old(self).spec_proposal(proposal_id).expires,
                *block,
            ) ==> r == Ok::<(), ContractError>(()) && final(self).proposals@ == old(
                self,
            ).proposals@.update(
                proposal_id - 1,
                with_status(old(self).spec_proposal(proposal_id), Status::Rejected),
            ),
    {
        if proposal_id == 0 || proposal_id > (self.proposals.len() as u64) {
            return Err(ContractError::NotFound);
        }
        let idx: usize = (proposal_id - 1) as usize;
        let st = self.proposals[idx].status;
        match st {
            Status::Open => {},
            _ => {
                return Err(ContractError::WrongStatus);
            },
        }
        if !self.proposals[idx].expires.is_expired(block) {
            return Err(ContractError::NotExpired);
        }
        self.set_status(idx, Status::Rejected);
        Ok(())
    }
}

} // verus!
