use vstd::prelude::*;

use crate::error::ContractError;
use crate::types::Ballot;
use crate::types::cast_weight;
use crate::types::lemma_cast_weight_none;
use crate::types::lemma_cast_weight_remove;

verus! {

/// One registered voter: an address and its fixed positive weight.
#[derive(Debug)]
pub struct VoterEntry {
    pub addr: String,
    pub weight: u64,
}

impl Clone for VoterEntry {
    fn clone(&self) -> (r: Self)
        ensures
            r == *self,
    {
        VoterEntry { addr: self.addr.clone(), weight: self.weight }
    }
}

/// All addresses are pairwise distinct.
pub open spec fn reg_distinct(reg: Seq<VoterEntry>) -> bool {
    forall|i: int, j: int|
        #![trigger reg[i], reg[j]]
        0 <= i < j < reg.len() ==> reg[i].addr@ != reg[j].addr@
}

/// Every weight is positive.
pub open spec fn reg_positive(reg: Seq<VoterEntry>) -> bool {
    forall|i: int| 0 <= i < reg.len() ==> (#[trigger] reg[i]).weight >= 1
}

/// Total weight of the first `k` entries.
pub open spec fn reg_total_prefix(reg: Seq<VoterEntry>, k: int) -> nat
    decreases k,
{
    if k <= 0 {
        0
    } else {
        reg_total_prefix(reg, k - 1) + reg[k - 1].weight as nat
    }
}

/// Total weight of the whole registry.
pub open spec fn reg_total(reg: Seq<VoterEntry>) -> nat {
    reg_total_prefix(reg, reg.len() as int)
}

/// Some entry carries this address.
pub open spec fn reg_has(reg: Seq<VoterEntry>, a: Seq<char>) -> bool {
    exists|i: int| 0 <= i < reg.len() && (#[trigger] reg[i]).addr@ == a
}

/// The weight of the entry with this address (meaningful under `reg_has`).
pub open spec fn reg_weight(reg: Seq<VoterEntry>, a: Seq<char>) -> u64 {
    reg[choose|i: int| 0 <= i < reg.len() && (#[trigger] reg[i]).addr@ == a].weight
}

/// A prefix never outweighs the whole registry.
pub proof fn lemma_reg_total_prefix_le(reg: Seq<VoterEntry>, k: int)
    requires
        0 <= k <= reg.len(),
    ensures
        reg_total_prefix(reg, k) <= reg_total(reg),
    decreases reg.len() - k,
{
    if k < reg.len() {
        lemma_reg_total_prefix_le(reg, k + 1);
    }
}

/// The first construction-time fault among the voter entries at or after
/// index `i`: a zero weight, or an address repeating an earlier one.
pub open spec fn first_voter_error(vs: Seq<VoterEntry>, i: int) -> Option<ContractError>
    decreases vs.len() - i,
{
    if i < 0 || i >= vs.len() {
        None
    } else if vs[i].weight == 0 {
        Some(ContractError::ZeroWeight)
    } else if exists|j: int| 0 <= j < i && (#[trigger] vs[j]).addr@ == vs[i].addr@ {
        Some(ContractError::DuplicateVoter)
    } else {
        first_voter_error(vs, i + 1)
    }
}

proof fn lemma_voter_error_none_from(vs: Seq<VoterEntry>, i: int, k: int)
    requires
        0 <= i <= k < vs.len(),
        first_voter_error(vs, i) == None::<ContractError>,
    ensures
        vs[k].weight >= 1,
        forall|j: int| 0 <= j < k ==> (#[trigger] vs[j]).addr@ != vs[k].addr@,
    decreases k - i,
{
    if i == k {
        assert(!(exists|j: int| 0 <= j < i && (#[trigger] vs[j]).addr@ == vs[i].addr@));
    } else {
        lemma_voter_error_none_from(vs, i + 1, k);
    }
}

/// With no fault found, the entries are pairwise distinct and positive.
pub proof fn lemma_voter_error_none(vs: Seq<VoterEntry>)
    requires
        first_voter_error(vs, 0) == None::<ContractError>,
    ensures
        reg_distinct(vs),
        reg_positive(vs),
{
    assert forall|a: int, b: int|
        #![trigger vs[a], vs[b]]
        0 <= a < b < vs.len() implies vs[a].addr@ != vs[b].addr@ by {
        lemma_voter_error_none_from(vs, 0, b);
    }
    assert forall|k: int| 0 <= k < vs.len() implies (#[trigger] vs[k]).weight >= 1 by {
        lemma_voter_error_none_from(vs, 0, k);
    }
}

/// Every ballot names a registered voter and carries that voter's weight.
pub open spec fn ballots_registered(bs: Seq<Ballot>, reg: Seq<VoterEntry>) -> bool {
    forall|i: int|
        0 <= i < bs.len() ==> reg_has(reg, (#[trigger] bs[i]).voter@) && bs[i].weight
            == reg_weight(reg, bs[i].voter@)
}

/// No two ballots share a proposal and a voter.
pub open spec fn ballots_distinct(bs: Seq<Ballot>) -> bool {
    forall|i: int, j: int|
        #![trigger bs[i], bs[j]]
        0 <= i < j < bs.len() ==> !(bs[i].proposal_id == bs[j].proposal_id && bs[i].voter@
            == bs[j].voter@)
}

proof fn lemma_cast_le_prefix(bs: Seq<Ballot>, reg: Seq<VoterEntry>, pid: u64, k: int)
    requires
        0 <= k <= reg.len(),
        reg_distinct(reg),
        ballots_distinct(bs),
        forall|i: int|
            0 <= i < bs.len() && (#[trigger] bs[i]).proposal_id == pid ==> exists|j: int|
                0 <= j < k && (#[trigger] reg[j]).addr@ == bs[i].voter@ && bs[i].weight
                    == reg[j].weight,
    ensures
        cast_weight(bs, pid) <= reg_total_prefix(reg, k),
    decreases k, bs.len(),
{
    if k == 0 {
        assert forall|i: int| 0 <= i < bs.len() implies (#[trigger] bs[i]).proposal_id != pid by {}
        lemma_cast_weight_none(bs, pid);
    } else if exists|i: int|
        0 <= i < bs.len() && (#[trigger] bs[i]).proposal_id == pid && bs[i].voter@ == reg[k
            - 1].addr@ {
        let i = choose|i: int|
            0 <= i < bs.len() && (#[trigger] bs[i]).proposal_id == pid && bs[i].voter@ == reg[k
                - 1].addr@;
        // the registry entry this ballot matches is exactly entry k - 1
        let j0 = choose|j: int|
            0 <= j < k && (#[trigger] reg[j]).addr@ == bs[i].voter@ && bs[i].weight
                == reg[j].weight;
        assert(j0 == k - 1);
        lemma_cast_weight_remove(bs, pid, i);
        let bs2 = bs.remove(i);
        assert(ballots_distinct(bs2)) by {
            assert forall|x: int, y: int|
                #![trigger bs2[x], bs2[y]]
                0 <= x < y < bs2.len() implies !(bs2[x].proposal_id == bs2[y].proposal_id
                && bs2[x].voter@ == bs2[y].voter@) by {
                let x0: int = if x < i { x } else { x + 1 };
                let y0: int = if y < i { y } else { y + 1 };
                assert(bs2[x] == bs[x0] && bs2[y] == bs[y0]);
            }
        }
        assert forall|x: int|
            0 <= x < bs2.len() && (#[trigger] bs2[x]).proposal_id == pid implies exists|j: int|
            0 <= j < k - 1 && (#[trigger] reg[j]).addr@ == bs2[x].voter@ && bs2[x].weight
                == reg[j].weight by {
            let x0: int = if x < i { x } else { x + 1 };
            assert(bs2[x] == bs[x0]);
            let j = choose|j: int|
                0 <= j < k && (#[trigger] reg[j]).addr@ == bs[x0].voter@ && bs[x0].weight
                    == reg[j].weight;
            // j cannot be k - 1: that voter already cast the removed ballot
            assert(j < k - 1) by {
                if j == k - 1 {
                    assert(bs[x0].voter@ == reg[k - 1].addr@);
                    assert(bs[x0].proposal_id == bs[i].proposal_id && bs[x0].voter@
                        == bs[i].voter@);
                    assert(x0 != i);
                }
            }
        }
        lemma_cast_le_prefix(bs2, reg, pid, k - 1);
    } else {
        assert forall|x: int|
            0 <= x < bs.len() && (#[trigger] bs[x]).proposal_id == pid implies exists|j: int|
            0 <= j < k - 1 && (#[trigger] reg[j]).addr@ == bs[x].voter@ && bs[x].weight
                == reg[j].weight by {
            let j = choose|j: int|
                0 <= j < k && (#[trigger] reg[j]).addr@ == bs[x].voter@ && bs[x].weight
                    == reg[j].weight;
            assert(j != k - 1);
        }
        lemma_cast_le_prefix(bs, reg, pid, k - 1);
    }
}

/// Law: the ballots of one proposal never outweigh the registry. Every
/// ballot names a distinct registered voter and carries that voter's
/// registered weight, so the accumulated cast weight of any proposal stays
/// within the registry's total weight.
pub proof fn lemma_cast_weight_le_total(bs: Seq<Ballot>, reg: Seq<VoterEntry>, pid: u64)
    requires
        reg_distinct(reg),
        ballots_distinct(bs),
        ballots_registered(bs, reg),
    ensures
        cast_weight(bs, pid) <= reg_total(reg),
{
    assert forall|i: int|
        0 <= i < bs.len() && (#[trigger] bs[i]).proposal_id == pid implies exists|j: int|
        0 <= j < reg.len() && (#[trigger] reg[j]).addr@ == bs[i].voter@ && bs[i].weight
            == reg[j].weight by {
        let j = choose|j: int| 0 <= j < reg.len() && (#[trigger] reg[j]).addr@ == bs[i].voter@;
        assert(bs[i].weight == reg_weight(reg, bs[i].voter@));
    }
    lemma_cast_le_prefix(bs, reg, pid, reg.len() as int);
}

/// The immutable voter table: fixed at construction, shared read-only by
/// every operation, with the total weight computed once and cached.
#[derive(Debug)]
pub struct VoterRegistry {
    pub voters: Vec<VoterEntry>,
    pub total: u64,
}

impl VoterRegistry {
    /// Well-formed: at least one voter, distinct addresses, positive
    /// weights, and the cached total equals the sum of the weights.
    pub open spec fn wf(self) -> bool {
        &&& self.voters@.len() >= 1
        &&& reg_distinct(self.voters@)
        &&& reg_positive(self.voters@)
        &&& self.total == reg_total(self.voters@)
    }

    /// The cached total weight of all voters.
    pub fn total_weight(&self) -> (w: u64)
        ensures
            w == self.total,
    {
        self.total
    }

    /// The weight of a registered address; `None` for a stranger.
    pub fn weight_of(&self, addr: &String) -> (r: Option<u64>)
        requires
            self.wf(),
        ensures
            match r {
                Some(w) => reg_has(self.voters@, addr@) && w == reg_weight(self.voters@, addr@),
                None => !reg_has(self.voters@, addr@),
            },
    {
        let n = self.voters.len();
        let mut i: usize = 0;
        while i < n
            invariant
                self.wf(),
                n == self.voters@.len(),
                0 <= i <= n,
                forall|j: int| 0 <= j < i ==> (#[trigger] self.voters@[j]).addr@ != addr@,
            decreases n - i,
        {
            if self.voters[i].addr == *addr {
                proof {
                    let k = choose|k: int|
                        0 <= k < self.voters@.len() && (#[trigger] self.voters@[k]).addr@ == addr@;
                    assert(k == i);
                }
                return Some(self.voters[i].weight);
            }
            i = i + 1;
        }
        None
    }

    /// Whether the address belongs to a registered voter.
    pub fn is_voter(&self, addr: &String) -> (r: bool)
        requires
            self.wf(),
        ensures
            r == reg_has(self.voters@, addr@),
    {
        self.weight_of(addr).is_some()
    }

    /// A copy of the voter table, in registration order.
    pub fn list_voters(&self) -> (r: Vec<VoterEntry>)
        ensures
            r@ =~= self.voters@,
    {
        let n = self.voters.len();
        let mut out: Vec<VoterEntry> = Vec::new();
        let mut i: usize = 0;
        while i < n
            invariant
                n == self.voters@.len(),
                0 <= i <= n,
                out@ =~= self.voters@.take(i as int),
            decreases n - i,
        {
            out.push(self.voters[i].clone());
            proof {
                assert(out@ =~= self.voters@.take(i + 1 as int));
            }
            i = i + 1;
        }
        out
    }
}

} // verus!
