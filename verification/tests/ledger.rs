use devot_contract::Error;
use devot_contract::VoteCast;
use devot_contract::Voting;

fn roster(names: &[&str]) -> Vec<String> {
    names.iter().map(|n| n.to_string()).collect()
}

#[test]
fn fresh_roster_has_dense_ids_and_zero_tallies() {
    let v = Voting::new(roster(&["Alice", "Bob", "Carol"])).unwrap();
    let list = v.get_candidates();
    assert_eq!(list.len(), 3);
    for (i, c) in list.iter().enumerate() {
        assert_eq!(c.id, i as u32);
        assert_eq!(c.vote_count, 0);
    }
    assert_eq!(list[0].name, "Alice");
    assert_eq!(list[1].name, "Bob");
    assert_eq!(list[2].name, "Carol");
}

#[test]
fn empty_roster_rejects_every_ballot() {
    let mut v = Voting::new(Vec::new()).unwrap();
    assert!(v.get_candidates().is_empty());
    assert_eq!(v.vote(1, 0), Err(Error::InvalidCandidate));
    assert!(v.get_candidates().is_empty());
    assert!(!v.has_voted(1));
}

#[test]
fn has_voted_flips_once_and_stays() {
    let mut v = Voting::new(roster(&["Alice", "Bob"])).unwrap();
    assert!(!v.has_voted(42));
    assert_eq!(v.vote(42, 0), Ok(VoteCast {}));
    assert!(v.has_voted(42));
    // Further attempts, valid or not, never clear the marker.
    let _ = v.vote(42, 1);
    assert!(v.has_voted(42));
    let _ = v.vote(42, 9);
    assert!(v.has_voted(42));
}

#[test]
fn first_vote_raises_only_the_chosen_tally() {
    let mut v = Voting::new(roster(&["Alice", "Bob", "Carol"])).unwrap();
    assert_eq!(v.vote(7, 1), Ok(VoteCast {}));
    let list = v.get_candidates();
    assert_eq!(list[0].vote_count, 0);
    assert_eq!(list[1].vote_count, 1);
    assert_eq!(list[2].vote_count, 0);
}

#[test]
fn distinct_identities_accumulate_on_one_candidate() {
    let mut v = Voting::new(roster(&["Alice", "Bob"])).unwrap();
    assert_eq!(v.vote(1, 0), Ok(VoteCast {}));
    assert_eq!(v.vote(2, 0), Ok(VoteCast {}));
    assert_eq!(v.vote(3, 0), Ok(VoteCast {}));
    let list = v.get_candidates();
    assert_eq!(list[0].vote_count, 3);
    assert_eq!(list[1].vote_count, 0);
}

#[test]
fn second_vote_is_rejected_and_changes_nothing() {
    let mut v = Voting::new(roster(&["Alice", "Bob"])).unwrap();
    assert_eq!(v.vote(5, 0), Ok(VoteCast {}));
    assert_eq!(v.vote(5, 1), Err(Error::AlreadyVoted));
    assert_eq!(v.vote(5, 0), Err(Error::AlreadyVoted));
    let list = v.get_candidates();
    assert_eq!(list[0].vote_count, 1);
    assert_eq!(list[1].vote_count, 0);
    assert!(v.has_voted(5));
}

#[test]
fn out_of_range_candidate_is_rejected_and_changes_nothing() {
    let mut v = Voting::new(roster(&["Alice", "Bob"])).unwrap();
    assert_eq!(v.vote(5, 2), Err(Error::InvalidCandidate));
    assert_eq!(v.vote(5, u32::MAX), Err(Error::InvalidCandidate));
    let list = v.get_candidates();
    assert_eq!(list[0].vote_count, 0);
    assert_eq!(list[1].vote_count, 0);
    // The failed attempts did not mark the caller as having voted.
    assert!(!v.has_voted(5));
    assert_eq!(v.vote(5, 1), Ok(VoteCast {}));
}

#[test]
fn duplicate_check_runs_before_range_check() {
    let mut v = Voting::new(roster(&["Alice"])).unwrap();
    assert_eq!(v.vote(8, 0), Ok(VoteCast {}));
    // Out of range too, but the duplicate check comes first.
    assert_eq!(v.vote(8, 99), Err(Error::AlreadyVoted));
}

#[test]
fn duplicate_names_get_distinct_ids() {
    let mut v = Voting::new(roster(&["Alice", "Alice"])).unwrap();
    let list = v.get_candidates();
    assert_eq!(list.len(), 2);
    assert_eq!(list[0].name, "Alice");
    assert_eq!(list[1].name, "Alice");
    assert_eq!(v.vote(3, 1), Ok(VoteCast {}));
    let list = v.get_candidates();
    assert_eq!(list[0].vote_count, 0);
    assert_eq!(list[1].vote_count, 1);
}

#[test]
fn scenario_alice_bob() {
    let mut v = Voting::new(roster(&["Alice", "Bob"])).unwrap();
    let list = v.get_candidates();
    assert_eq!(list.len(), 2);
    assert_eq!((list[0].id, list[0].name.as_str()), (0, "Alice"));
    assert_eq!((list[1].id, list[1].name.as_str()), (1, "Bob"));
    assert_eq!(list[0].vote_count, 0);
    assert_eq!(list[1].vote_count, 0);

    // U1 votes for Bob.
    assert_eq!(v.vote(1, 1), Ok(VoteCast {}));
    let list = v.get_candidates();
    assert_eq!(list[1].vote_count, 1);
    assert!(v.has_voted(1));

    // U1 tries again for Alice.
    assert_eq!(v.vote(1, 0), Err(Error::AlreadyVoted));
    let list = v.get_candidates();
    assert_eq!(list[0].vote_count, 0);
    assert_eq!(list[1].vote_count, 1);

    // U2 names a candidate that does not exist.
    assert_eq!(v.vote(2, 5), Err(Error::InvalidCandidate));
    let list = v.get_candidates();
    assert_eq!(list[0].vote_count, 0);
    assert_eq!(list[1].vote_count, 1);
    assert!(!v.has_voted(2));
}

#[test]
fn tallies_never_decrease_over_a_run_of_calls() {
    let mut v = Voting::new(roster(&["Alice", "Bob", "Carol"])).unwrap();
    let mut floor = vec![0u32; 3];
    let attempts: &[(u64, u32)] = &[(1, 0), (2, 2), (1, 1), (3, 7), (4, 2), (2, 0), (5, 1)];
    for &(voter, cand) in attempts {
        let _ = v.vote(voter, cand);
        let list = v.get_candidates();
        for i in 0..3 {
            assert!(list[i].vote_count >= floor[i]);
            floor[i] = list[i].vote_count;
        }
    }
    let list = v.get_candidates();
    assert_eq!(
        (list[0].vote_count, list[1].vote_count, list[2].vote_count),
        (1, 1, 2),
    );
}

#[test]
fn candidate_clone_is_exact() {
    let v = Voting::new(roster(&["Alice"])).unwrap();
    let list = v.get_candidates();
    let copy = list[0].clone();
    assert_eq!(copy, list[0]);
}
