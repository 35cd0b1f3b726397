use vstd::prelude::*;

use crate::engine::Multisig;
use crate::threshold::ThresholdSpec;
use crate::threshold::evaluate;
use crate::types::Action;
use crate::types::Ballot;
use crate::types::BlockInfo;
use crate::types::Expiration;
use crate::types::Status;
use crate::types::Tally;
use crate::types::Vote;
use crate::types::actions_match;
use crate::types::ballots_for;
use crate::types::spec_is_expired;
use crate::types::vote_weight;

verus! {

/// A read-only projection of one stored proposal, without its action batch.
#[derive(Debug)]
pub struct ProposalInfo {
    pub id: u64,
    pub proposer: String,
    pub title: String,
    pub description: String,
    pub threshold: ThresholdSpec,
    pub total_weight: u64,
    pub expires: Expiration,
    pub status: Status,
}

impl Multisig {
    /// The stored proposal under `proposal_id`, as a copy of everything but
    /// its action batch; `None` for an unknown id. Reading never mutates.
    pub fn query_proposal(&self, proposal_id: u64) -> (r: Option<ProposalInfo>)
        ensures
            match r {
                Some(pi) => self.spec_has_proposal(proposal_id) && ({
                    let p = self.spec_proposal(proposal_id);
                    &&& pi.id == p.id
                    &&& pi.proposer == p.proposer
                    &&& pi.title == p.title
                    &&& pi.description == p.description
                    &&& pi.threshold == p.threshold
                    &&& pi.total_weight == p.total_weight
                    &&& pi.expires == p.expires
                    &&& pi.status == p.status
                }),
                None => !self.spec_has_proposal(proposal_id),
            },
    {
        if proposal_id == 0 || proposal_id > (self.proposals.len() as u64) {
            return None;
        }
        let idx: usize = (proposal_id - 1) as usize;
        Some(
            ProposalInfo {
                id: self.proposals[idx].id,
                proposer: self.proposals[idx].proposer.clone(),
                title: self.proposals[idx].title.clone(),
                description: self.proposals[idx].description.clone(),
                threshold: self.proposals[idx].threshold,
                total_weight: self.proposals[idx].total_weight,
                expires: self.proposals[idx].expires,
                status: self.proposals[idx].status,
            },
        )
    }

    /// A copy of the action batch of the proposal under `proposal_id`.
    pub fn query_actions(&self, proposal_id: u64) -> (r: Option<Vec<Action>>)
        ensures
            match r {
                Some(acts) => self.spec_has_proposal(proposal_id) && actions_match(
                    acts@,
                    self.spec_proposal(proposal_id).actions@,
                ),
                None => !self.spec_has_proposal(proposal_id),
            },
    {
        if proposal_id == 0 || proposal_id > (self.proposals.len() as u64) {
            return None;
        }
        let idx: usize = (proposal_id - 1) as usize;
        Some(self.clone_batch(idx))
    }

    /// The recorded ballot of `voter` on proposal `proposal_id`, if any.
    pub fn query_vote(&self, proposal_id: u64, voter: &String) -> (r: Option<Ballot>)
        requires
            self.wf(),
        ensures
            match r {
                Some(b) => self.spec_has_ballot(proposal_id, voter@) && b.proposal_id
                    == proposal_id && b.voter@ == voter@ && (exists|i: int|
                    0 <= i < self.ballots@.len() && self.ballots@[i] == b),
                None => !self.spec_has_ballot(proposal_id, voter@),
            },
    {
        match self.find_ballot_index(proposal_id, voter) {
            Some(i) => Some(self.ballots[i].clone()),
            None => None,
        }
    }

    /// The current tally of proposal `proposal_id`, recomputed from the
    /// stored ballots.
    pub fn tally(&self, proposal_id: u64) -> (r: Option<Tally>)
        requires
            self.wf(),
        ensures
            match r {
                Some(t) => self.spec_has_proposal(proposal_id) && t.yes == vote_weight(
                    self.ballots@,
                    proposal_id,
                    Vote::Yes,
                ) && t.no == vote_weight(self.ballots@, proposal_id, Vote::No) && t.abstain
                    == vote_weight(self.ballots@, proposal_id, Vote::Abstain) && t.veto
                    == vote_weight(self.ballots@, proposal_id, Vote::Veto),
                None => !self.spec_has_proposal(proposal_id),
            },
    {
        if proposal_id == 0 || proposal_id > (self.proposals.len() as u64) {
            return None;
        }
        Some(self.tally_ballots(proposal_id))
    }

    /// The current tally of proposal `proposal_id` together with the
    /// outcome the threshold policy yields on it right now.
    pub fn threshold_state(&self, proposal_id: u64) -> (r: Option<(Tally, Status)>)
        requires
            self.wf(),
        ensures
            match r {
                Some(ts) => self.spec_has_proposal(proposal_id) && ts.1
                    == self.spec_tally_status(proposal_id) && ts.0.yes == vote_weight(
                    self.ballots@,
                    proposal_id,
                    Vote::Yes,
                ) && ts.0.no == vote_weight(self.ballots@, proposal_id, Vote::No) && ts.0.abstain
                    == vote_weight(self.ballots@, proposal_id, Vote::Abstain) && ts.0.veto
                    == vote_weight(self.ballots@, proposal_id, Vote::Veto),
                None => !self.spec_has_proposal(proposal_id),
            },
    {
        if proposal_id == 0 || proposal_id > (self.proposals.len() as u64) {
            return None;
        }
        let idx: usize = (proposal_id - 1) as usize;
        let t = self.tally_ballots(proposal_id);
        let ts = self.proposals[idx].threshold;
        let tw = self.proposals[idx].total_weight;
        let s = evaluate(&ts, &t, tw);
        Some((t, s))
    }

    /// The status of proposal `proposal_id` as it effectively stands at
    /// `block`: a still-open proposal whose deadline has been reached reads
    /// as `Rejected`. A read-time projection only — nothing is persisted.
    pub fn effective_status(&self, proposal_id: u64, block: &BlockInfo) -> (r: Option<Status>)
        ensures
            match r {
                Some(s) => self.spec_has_proposal(proposal_id) && ({
                    let p = self.spec_proposal(proposal_id);
                    s == (if p.status == Status::Open && spec_is_expired(p.expires, *block) {
                        Status::Rejected
                    } else {
                        p.status
                    })
                }),
                None => !self.spec_has_proposal(proposal_id),
            },
    {
        if proposal_id == 0 || proposal_id > (self.proposals.len() as u64) {
            return None;
        }
        let idx: usize = (proposal_id - 1) as usize;
        let st = self.proposals[idx].status;
        let expired = self.proposals[idx].expires.is_expired(block);
        match st {
            Status::Open => {
                if expired {
                    Some(Status::Rejected)
                } else {
                    Some(Status::Open)
                }
            },
            _ => Some(st),
        }
    }

    /// The ids of stored proposals after `start_after` (all of them from
    /// the first id with `None`), ascending, at most `limit` of them.
    /// Proposal ids are dense, so the page is exactly the next ids in
    /// order.
    pub fn list_proposals(&self, start_after: Option<u64>, limit: usize) -> (r: Vec<u64>)
        ensures
            ({
                let s: int = match start_after {
                    None => 0,
                    Some(a) => a as int,
                };
                let n: int = self.proposals@.len() as int;
                let count: int = if s >= n {
                    0
                } else if n - s < limit {
                    n - s
                } else {
                    limit as int
                };
                &&& r@.len() == count
                &&& forall|k: int| 0 <= k < count ==> r@[k] == s + 1 + k
            }),
    {
        let n = self.proposals.len();
        let s: u64 = match start_after {
            None => 0,
            Some(a) => a,
        };
        let mut out: Vec<u64> = Vec::new();
        if s >= (n as u64) {
            return out;
        }
        let first: usize = s as usize;
        let mut i: usize = first;
        while i < n && out.len() < limit
            invariant
                n == self.proposals@.len(),
                first == s,
                s < n,
                first <= i <= n,
                out@.len() == i - first,
                out@.len() <= limit,
                forall|k: int| 0 <= k < out@.len() ==> out@[k] == s + 1 + k,
                i < n ==> out@.len() <= limit,
            decreases n - i,
        {
            out.push((i as u64) + 1);
            i = i + 1;
        }
        out
    }

    /// The recorded ballots of proposal `proposal_id`, in recording order,
    /// skipping the first `start` of them and yielding at most `limit`.
    pub fn list_votes(&self, proposal_id: u64, start: usize, limit: usize) -> (r: Vec<Ballot>)
        ensures
            ({
                let all = ballots_for(self.ballots@, proposal_id);
                let lo: int = if start >= all.len() {
                    all.len() as int
                } else {
                    start as int
                };
                let hi: int = if all.len() - lo < limit {
                    all.len() as int
                } else {
                    lo + limit
                };
                r@ == all.subrange(lo, hi)
            }),
    {
        let n = self.ballots.len();
        let mut full: Vec<Ballot> = Vec::new();
        let mut i: usize = 0;
        while i < n
            invariant
                n == self.ballots@.len(),
                0 <= i <= n,
                full@ == ballots_for(self.ballots@.take(i as int), proposal_id),
            decreases n - i,
        {
            proof {
                assert(self.ballots@.take(i as int + 1).drop_last() =~= self.ballots@.take(
                    i as int,
                ));
                assert(self.ballots@.take(i as int + 1).last() == self.ballots@[i as int]);
            }
            if self.ballots[i].proposal_id == proposal_id {
                full.push(self.ballots[i].clone());
                proof {
                    assert(full@ =~= ballots_for(
                        self.ballots@.take(i as int + 1),
                        proposal_id,
                    ));
                }
            }
            i = i + 1;
        }
        proof {
            assert(self.ballots@.take(n as int) =~= self.ballots@);
        }
        let m = full.len();
        let lo: usize = if start >= m {
            m
        } else {
            start
        };
        let mut out: Vec<Ballot> = Vec::new();
        let mut j: usize = lo;
        while j < m && out.len() < limit
            invariant
                m == full@.len(),
                lo <= j <= m,
                out@.len() == j - lo,
                out@.len() <= limit,
                out@ == full@.subrange(lo as int, j as int),
                full@ == ballots_for(self.ballots@, proposal_id),
            decreases m - j,
        {
            out.push(full[j].clone());
            proof {
                assert(out@ =~= full@.subrange(lo as int, j as int + 1));
            }
            j = j + 1;
        }
        out
    }
}

} // verus!
