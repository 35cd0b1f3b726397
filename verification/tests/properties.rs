use fixed_multisig::engine::Multisig;
use fixed_multisig::error::ContractError;
use fixed_multisig::registry::VoterEntry;
use fixed_multisig::threshold::Ratio;
use fixed_multisig::threshold::ThresholdSpec;
use fixed_multisig::types::Action;
use fixed_multisig::types::BlockInfo;
use fixed_multisig::types::Duration;
use fixed_multisig::types::Expiration;
use fixed_multisig::types::Status;
use fixed_multisig::types::Vote;

fn voter(addr: &str, weight: u64) -> VoterEntry {
    VoterEntry { addr: addr.to_string(), weight }
}

fn block(height: u64) -> BlockInfo {
    BlockInfo { height, time: 0 }
}

fn one_action() -> Vec<Action> {
    vec![Action { payload: b"act".to_vec() }]
}

/// Three equal voters, an absolute count of 2, a three-block period.
fn three_by_one() -> Multisig {
    Multisig::new(
        vec![voter("addr1", 1), voter("addr2", 1), voter("addr3", 1)],
        ThresholdSpec::AbsoluteCount { weight: 2 },
        Duration::Height(3),
        false,
    )
    .unwrap()
}

#[test]
fn duplicate_ballot_is_refused_and_tally_unchanged() {
    let mut ms = three_by_one();
    let id = ms
        .propose(
            &"addr1".to_string(),
            "t".to_string(),
            "d".to_string(),
            one_action(),
            None,
            &block(10),
        )
        .unwrap();

    // the proposer's automatic yes ballot already stands: voting again fails
    let again = ms.vote(&"addr1".to_string(), id, Vote::No, &block(10));
    assert_eq!(again.unwrap_err(), ContractError::AlreadyVoted);

    let before = ms.tally(id).unwrap();
    let dup = ms.vote(&"addr1".to_string(), id, Vote::Yes, &block(11));
    assert_eq!(dup.unwrap_err(), ContractError::AlreadyVoted);
    let after = ms.tally(id).unwrap();
    assert_eq!(before, after);
    assert_eq!(after.yes, 1);
    assert_eq!(after.no, 0);
}

#[test]
fn execute_needs_exactly_passed_and_unexpired() {
    let mut ms = three_by_one();
    let id = ms
        .propose(
            &"addr1".to_string(),
            "t".to_string(),
            "d".to_string(),
            one_action(),
            None,
            &block(10),
        )
        .unwrap();

    // still open: execute fails and the status stays Open
    assert_eq!(ms.execute(id, &block(10)).unwrap_err(), ContractError::WrongStatus);
    assert_eq!(ms.query_proposal(id).unwrap().status, Status::Open);

    // pass it, then let the deadline arrive: a passed-but-expired proposal
    // is unexecutable and stays Passed
    ms.vote(&"addr2".to_string(), id, Vote::Yes, &block(10)).unwrap();
    assert_eq!(ms.query_proposal(id).unwrap().status, Status::Passed);
    assert_eq!(ms.execute(id, &block(13)).unwrap_err(), ContractError::Expired);
    assert_eq!(ms.query_proposal(id).unwrap().status, Status::Passed);

    // in time, execution succeeds
    assert!(ms.execute(id, &block(12)).is_ok());
}

#[test]
fn reexecution_always_fails_and_never_redispatches() {
    let mut ms = three_by_one();
    let id = ms
        .propose(
            &"addr1".to_string(),
            "t".to_string(),
            "d".to_string(),
            one_action(),
            None,
            &block(10),
        )
        .unwrap();
    ms.vote(&"addr2".to_string(), id, Vote::Yes, &block(10)).unwrap();

    let mut dispatches: u32 = 0;
    let batch = ms.execute(id, &block(10)).unwrap();
    dispatches += batch.len() as u32;
    ms.confirm_execution(id, true).unwrap();
    assert_eq!(ms.query_proposal(id).unwrap().status, Status::Executed);

    // every further attempt fails without handing a batch out
    assert_eq!(ms.execute(id, &block(10)).unwrap_err(), ContractError::WrongStatus);
    assert_eq!(ms.execute(id, &block(11)).unwrap_err(), ContractError::WrongStatus);
    assert_eq!(ms.confirm_execution(id, true).unwrap_err(), ContractError::WrongStatus);
    assert_eq!(dispatches, 1);
    assert_eq!(ms.query_proposal(id).unwrap().status, Status::Executed);
}

#[test]
fn failed_dispatch_keeps_passed_and_allows_retry() {
    let mut ms = three_by_one();
    let id = ms
        .propose(
            &"addr1".to_string(),
            "t".to_string(),
            "d".to_string(),
            one_action(),
            None,
            &block(10),
        )
        .unwrap();
    ms.vote(&"addr2".to_string(), id, Vote::Yes, &block(10)).unwrap();

    let _batch = ms.execute(id, &block(10)).unwrap();
    // the sandbox rejects the batch: the status must stay Passed
    assert_eq!(ms.confirm_execution(id, false).unwrap_err(), ContractError::ExternalFailure);
    assert_eq!(ms.query_proposal(id).unwrap().status, Status::Passed);

    // the retry goes through
    let _batch = ms.execute(id, &block(11)).unwrap();
    ms.confirm_execution(id, true).unwrap();
    assert_eq!(ms.query_proposal(id).unwrap().status, Status::Executed);
}

#[test]
fn passed_is_sticky_under_later_votes() {
    let mut ms = three_by_one();
    let id = ms
        .propose(
            &"addr1".to_string(),
            "t".to_string(),
            "d".to_string(),
            one_action(),
            None,
            &block(10),
        )
        .unwrap();
    ms.vote(&"addr2".to_string(), id, Vote::Yes, &block(10)).unwrap();
    assert_eq!(ms.query_proposal(id).unwrap().status, Status::Passed);

    // a decided proposal takes no further votes and never leaves Passed
    let late = ms.vote(&"addr3".to_string(), id, Vote::No, &block(10));
    assert_eq!(late.unwrap_err(), ContractError::WrongStatus);
    assert_eq!(ms.query_proposal(id).unwrap().status, Status::Passed);
}

#[test]
fn scenario_three_voters_absolute_count_two() {
    let mut ms = three_by_one();
    let addr1 = "addr1".to_string();
    let addr2 = "addr2".to_string();
    let mut applied: u32 = 0;

    let id = ms
        .propose(&addr1, "t".to_string(), "d".to_string(), one_action(), None, &block(10))
        .unwrap();
    assert_eq!(id, 1);
    assert_eq!(ms.query_proposal(id).unwrap().status, Status::Open);

    let t = ms.tally(id).unwrap();
    assert_eq!(t.yes, 1);

    ms.vote(&addr2, id, Vote::Yes, &block(10)).unwrap();
    assert_eq!(ms.tally(id).unwrap().yes, 2);
    assert_eq!(ms.query_proposal(id).unwrap().status, Status::Passed);

    let batch = ms.execute(id, &block(10)).unwrap();
    applied += batch.len() as u32;
    ms.confirm_execution(id, true).unwrap();
    assert_eq!(applied, 1);
    assert_eq!(ms.execute(id, &block(10)).unwrap_err(), ContractError::WrongStatus);
    assert_eq!(applied, 1);
}

#[test]
fn expiry_finalizes_on_next_touch() {
    let mut ms = three_by_one();
    let id = ms
        .propose(
            &"addr1".to_string(),
            "t".to_string(),
            "d".to_string(),
            one_action(),
            None,
            &block(10),
        )
        .unwrap();
    // deadline is height 13; the projection already reads Rejected there
    assert_eq!(ms.query_proposal(id).unwrap().expires, Expiration::AtHeight(13));
    assert_eq!(ms.effective_status(id, &block(12)).unwrap(), Status::Open);
    assert_eq!(ms.effective_status(id, &block(13)).unwrap(), Status::Rejected);
    assert_eq!(ms.query_proposal(id).unwrap().status, Status::Open);

    // the vote attempt past the deadline finalizes and fails
    let late = ms.vote(&"addr2".to_string(), id, Vote::Yes, &block(13));
    assert_eq!(late.unwrap_err(), ContractError::Expired);
    assert_eq!(ms.query_proposal(id).unwrap().status, Status::Rejected);

    // afterwards everything fails with WrongStatus or Expired
    assert_eq!(
        ms.vote(&"addr2".to_string(), id, Vote::Yes, &block(14)).unwrap_err(),
        ContractError::Expired
    );
    assert_eq!(ms.execute(id, &block(14)).unwrap_err(), ContractError::WrongStatus);
}

#[test]
fn expiry_finalizes_on_execute_attempt() {
    let mut ms = three_by_one();
    let id = ms
        .propose(
            &"addr1".to_string(),
            "t".to_string(),
            "d".to_string(),
            one_action(),
            None,
            &block(10),
        )
        .unwrap();
    assert_eq!(ms.execute(id, &block(13)).unwrap_err(), ContractError::WrongStatus);
    assert_eq!(ms.query_proposal(id).unwrap().status, Status::Rejected);
}

#[test]
fn close_finalizes_an_expired_open_proposal() {
    let mut ms = three_by_one();
    let id = ms
        .propose(
            &"addr1".to_string(),
            "t".to_string(),
            "d".to_string(),
            one_action(),
            None,
            &block(10),
        )
        .unwrap();
    assert_eq!(ms.close(id, &block(12)).unwrap_err(), ContractError::NotExpired);
    ms.close(id, &block(13)).unwrap();
    assert_eq!(ms.query_proposal(id).unwrap().status, Status::Rejected);
    // closing again is a WrongStatus failure, as for any decided proposal
    assert_eq!(ms.close(id, &block(14)).unwrap_err(), ContractError::WrongStatus);
}

#[test]
fn construction_validation() {
    // a threshold beyond the total weight is unsatisfiable
    let err = Multisig::new(
        vec![voter("addr1", 1), voter("addr2", 1), voter("addr3", 1)],
        ThresholdSpec::AbsoluteCount { weight: 4 },
        Duration::Height(3),
        false,
    )
    .unwrap_err();
    assert_eq!(err, ContractError::InvalidThreshold);

    // duplicate addresses are refused
    let err = Multisig::new(
        vec![voter("addr1", 1), voter("addr1", 2)],
        ThresholdSpec::AbsoluteCount { weight: 1 },
        Duration::Height(3),
        false,
    )
    .unwrap_err();
    assert_eq!(err, ContractError::DuplicateVoter);

    // zero weights are refused
    let err = Multisig::new(
        vec![voter("addr1", 0)],
        ThresholdSpec::AbsoluteCount { weight: 1 },
        Duration::Height(3),
        false,
    )
    .unwrap_err();
    assert_eq!(err, ContractError::ZeroWeight);

    // an empty registry is refused
    let err = Multisig::new(
        vec![],
        ThresholdSpec::AbsoluteCount { weight: 1 },
        Duration::Height(3),
        false,
    )
    .unwrap_err();
    assert_eq!(err, ContractError::EmptyRegistry);

    // a zero or improper percentage is refused
    let err = Multisig::new(
        vec![voter("addr1", 1)],
        ThresholdSpec::AbsolutePercentage { percentage: Ratio { num: 3, den: 2 } },
        Duration::Height(3),
        false,
    )
    .unwrap_err();
    assert_eq!(err, ContractError::InvalidThreshold);
}

#[test]
fn empty_batch_policy_is_a_configuration_flag() {
    let mut strict = three_by_one();
    let err = strict.propose(
        &"addr1".to_string(),
        "t".to_string(),
        "d".to_string(),
        vec![],
        None,
        &block(10),
    );
    assert_eq!(err.unwrap_err(), ContractError::EmptyBatch);

    let mut lenient = Multisig::new(
        vec![voter("addr1", 1), voter("addr2", 1), voter("addr3", 1)],
        ThresholdSpec::AbsoluteCount { weight: 2 },
        Duration::Height(3),
        true,
    )
    .unwrap();
    assert!(
        lenient
            .propose(
                &"addr1".to_string(),
                "t".to_string(),
                "d".to_string(),
                vec![],
                None,
                &block(10),
            )
            .is_ok()
    );
}

#[test]
fn strangers_are_unauthorized_and_unknown_ids_not_found() {
    let mut ms = three_by_one();
    let stranger = "addr9".to_string();
    let err = ms.propose(
        &stranger,
        "t".to_string(),
        "d".to_string(),
        one_action(),
        None,
        &block(10),
    );
    assert_eq!(err.unwrap_err(), ContractError::Unauthorized);

    let id = ms
        .propose(
            &"addr1".to_string(),
            "t".to_string(),
            "d".to_string(),
            one_action(),
            None,
            &block(10),
        )
        .unwrap();
    assert_eq!(
        ms.vote(&stranger, id, Vote::Yes, &block(10)).unwrap_err(),
        ContractError::Unauthorized
    );
    assert_eq!(
        ms.vote(&"addr2".to_string(), 99, Vote::Yes, &block(10)).unwrap_err(),
        ContractError::NotFound
    );
    assert_eq!(ms.execute(99, &block(10)).unwrap_err(), ContractError::NotFound);
    assert_eq!(ms.close(99, &block(10)).unwrap_err(), ContractError::NotFound);
}

#[test]
fn absolute_percentage_needs_the_exact_ceiling() {
    // ten voters of weight one under 51/100: ceil(10 * 51 / 100) = 6
    let voters: Vec<VoterEntry> = (1..=10).map(|i| voter(&format!("addr{}", i), 1)).collect();
    let mut ms = Multisig::new(
        voters,
        ThresholdSpec::AbsolutePercentage { percentage: Ratio { num: 51, den: 100 } },
        Duration::Height(10),
        false,
    )
    .unwrap();
    let id = ms
        .propose(
            &"addr1".to_string(),
            "t".to_string(),
            "d".to_string(),
            one_action(),
            None,
            &block(0),
        )
        .unwrap();
    for i in 2..=5 {
        ms.vote(&format!("addr{}", i), id, Vote::Yes, &block(0)).unwrap();
    }
    // five yes-weights are not enough
    assert_eq!(ms.query_proposal(id).unwrap().status, Status::Open);
    ms.vote(&"addr6".to_string(), id, Vote::Yes, &block(0)).unwrap();
    assert_eq!(ms.query_proposal(id).unwrap().status, Status::Passed);
}

#[test]
fn quorum_counts_every_ballot_but_passes_on_yes_weight() {
    // total weight 6; threshold 1/2 needs yes >= 3, quorum 1/3 needs cast >= 2
    let mut ms = Multisig::new(
        vec![voter("addr1", 1), voter("addr2", 2), voter("addr3", 3)],
        ThresholdSpec::ThresholdQuorum {
            threshold: Ratio { num: 1, den: 2 },
            quorum: Ratio { num: 1, den: 3 },
        },
        Duration::Height(10),
        false,
    )
    .unwrap();
    let id = ms
        .propose(
            &"addr1".to_string(),
            "t".to_string(),
            "d".to_string(),
            one_action(),
            None,
            &block(0),
        )
        .unwrap();
    // yes = 1, cast = 1: quorum not yet met, yes-weight short — still open
    assert_eq!(ms.query_proposal(id).unwrap().status, Status::Open);
    // an abstention fills the quorum without helping the yes-weight
    ms.vote(&"addr2".to_string(), id, Vote::Abstain, &block(0)).unwrap();
    assert_eq!(ms.query_proposal(id).unwrap().status, Status::Open);
    // the remaining yes-weight pushes it over
    ms.vote(&"addr3".to_string(), id, Vote::Yes, &block(0)).unwrap();
    assert_eq!(ms.query_proposal(id).unwrap().status, Status::Passed);
}

#[test]
fn early_rejection_once_yes_weight_is_unreachable() {
    let mut ms = three_by_one();
    let id = ms
        .propose(
            &"addr1".to_string(),
            "t".to_string(),
            "d".to_string(),
            one_action(),
            None,
            &block(10),
        )
        .unwrap();
    // two no-votes leave at most yes = 1 < 2 reachable: rejected early
    ms.vote(&"addr2".to_string(), id, Vote::No, &block(10)).unwrap();
    assert_eq!(ms.query_proposal(id).unwrap().status, Status::Open);
    ms.vote(&"addr3".to_string(), id, Vote::No, &block(10)).unwrap();
    assert_eq!(ms.query_proposal(id).unwrap().status, Status::Rejected);
    assert_eq!(ms.execute(id, &block(10)).unwrap_err(), ContractError::WrongStatus);
}

#[test]
fn explicit_earlier_deadline_is_kept_later_one_capped() {
    let mut ms = three_by_one();
    let early = ms
        .propose(
            &"addr1".to_string(),
            "t".to_string(),
            "d".to_string(),
            one_action(),
            Some(Expiration::AtHeight(11)),
            &block(10),
        )
        .unwrap();
    assert_eq!(ms.query_proposal(early).unwrap().expires, Expiration::AtHeight(11));

    let late = ms
        .propose(
            &"addr2".to_string(),
            "t".to_string(),
            "d".to_string(),
            one_action(),
            Some(Expiration::AtHeight(99)),
            &block(10),
        )
        .unwrap();
    assert_eq!(ms.query_proposal(late).unwrap().expires, Expiration::AtHeight(13));

    // a deadline on the other clock is incomparable and the maximum is kept
    let other = ms
        .propose(
            &"addr3".to_string(),
            "t".to_string(),
            "d".to_string(),
            one_action(),
            Some(Expiration::AtTime(5)),
            &block(10),
        )
        .unwrap();
    assert_eq!(ms.query_proposal(other).unwrap().expires, Expiration::AtHeight(13));
}

#[test]
fn queries_project_without_mutating() {
    let mut ms = three_by_one();
    let addr1 = "addr1".to_string();
    let addr2 = "addr2".to_string();
    let id = ms
        .propose(
            &addr1,
            "Mint tokens".to_string(),
            "Need to mint tokens".to_string(),
            one_action(),
            None,
            &block(10),
        )
        .unwrap();

    let info = ms.query_proposal(id).unwrap();
    assert_eq!(info.id, 1);
    assert_eq!(info.proposer, "addr1");
    assert_eq!(info.title, "Mint tokens");
    assert_eq!(info.description, "Need to mint tokens");
    assert_eq!(info.total_weight, 3);
    assert!(ms.query_proposal(2).is_none());

    let actions = ms.query_actions(id).unwrap();
    assert_eq!(actions.len(), 1);
    assert_eq!(actions[0].payload, b"act".to_vec());

    let b = ms.query_vote(id, &addr1).unwrap();
    assert_eq!(b.vote, Vote::Yes);
    assert_eq!(b.weight, 1);
    assert!(ms.query_vote(id, &addr2).is_none());

    let (t, s) = ms.threshold_state(id).unwrap();
    assert_eq!(t.yes, 1);
    assert_eq!(s, Status::Open);

    assert_eq!(ms.registry.total_weight(), 3);
    assert_eq!(ms.registry.weight_of(&addr1), Some(1));
    assert_eq!(ms.registry.weight_of(&"addr9".to_string()), None);
    assert!(ms.registry.is_voter(&addr2));
    let voters = ms.registry.list_voters();
    assert_eq!(voters.len(), 3);
    assert_eq!(voters[0].addr, "addr1");
}

#[test]
fn listings_paginate_in_order() {
    let mut ms = three_by_one();
    for k in 0..4 {
        ms.propose(
            &"addr1".to_string(),
            format!("t{}", k),
            "d".to_string(),
            one_action(),
            None,
            &block(10),
        )
        .unwrap();
    }
    assert_eq!(ms.list_proposals(None, 10), vec![1, 2, 3, 4]);
    assert_eq!(ms.list_proposals(None, 2), vec![1, 2]);
    assert_eq!(ms.list_proposals(Some(2), 10), vec![3, 4]);
    assert_eq!(ms.list_proposals(Some(9), 10), Vec::<u64>::new());

    ms.vote(&"addr2".to_string(), 1, Vote::Yes, &block(10)).unwrap();
    ms.vote(&"addr3".to_string(), 2, Vote::No, &block(10)).unwrap();
    let votes = ms.list_votes(1, 0, 10);
    assert_eq!(votes.len(), 2);
    assert_eq!(votes[0].voter, "addr1");
    assert_eq!(votes[0].vote, Vote::Yes);
    assert_eq!(votes[1].voter, "addr2");
    let page = ms.list_votes(1, 1, 10);
    assert_eq!(page.len(), 1);
    assert_eq!(page[0].voter, "addr2");
    assert_eq!(ms.list_votes(3, 0, 10).len(), 1);
}

#[test]
fn single_voter_fast_pass() {
    // the proposer's own weight satisfies the threshold at once
    let mut ms = Multisig::new(
        vec![voter("addr1", 2), voter("addr2", 1)],
        ThresholdSpec::AbsoluteCount { weight: 2 },
        Duration::Height(3),
        false,
    )
    .unwrap();
    let id = ms
        .propose(
            &"addr1".to_string(),
            "t".to_string(),
            "d".to_string(),
            one_action(),
            None,
            &block(10),
        )
        .unwrap();
    assert_eq!(ms.query_proposal(id).unwrap().status, Status::Passed);
    assert!(ms.execute(id, &block(10)).is_ok());
}

#[test]
fn time_based_deadlines_expire_too() {
    let mut ms = Multisig::new(
        vec![voter("addr1", 1), voter("addr2", 1), voter("addr3", 1)],
        ThresholdSpec::AbsoluteCount { weight: 2 },
        Duration::Time(100),
        false,
    )
    .unwrap();
    let at = |time: u64| BlockInfo { height: 7, time };
    let id = ms
        .propose(
            &"addr1".to_string(),
            "t".to_string(),
            "d".to_string(),
            one_action(),
            None,
            &at(50),
        )
        .unwrap();
    assert_eq!(ms.query_proposal(id).unwrap().expires, Expiration::AtTime(150));
    ms.vote(&"addr2".to_string(), id, Vote::Abstain, &at(149)).unwrap();
    assert_eq!(
        ms.vote(&"addr3".to_string(), id, Vote::Yes, &at(150)).unwrap_err(),
        ContractError::Expired
    );
    assert_eq!(ms.query_proposal(id).unwrap().status, Status::Rejected);
}

#[test]
fn deadline_saturates_at_the_largest_height() {
    let mut ms = Multisig::new(
        vec![voter("addr1", 1)],
        ThresholdSpec::AbsoluteCount { weight: 1 },
        Duration::Height(u64::MAX),
        false,
    )
    .unwrap();
    let id = ms
        .propose(
            &"addr1".to_string(),
            "t".to_string(),
            "d".to_string(),
            one_action(),
            None,
            &block(5),
        )
        .unwrap();
    assert_eq!(ms.query_proposal(id).unwrap().expires, Expiration::AtHeight(u64::MAX));
}
