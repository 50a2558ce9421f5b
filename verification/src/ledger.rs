//! The single-election voting ledger.
//!
//! [`Voting`] owns the candidate roster, the per-identity vote markers and
//! the tallies. It is created once with the full roster, then mutated only
//! through [`Voting::vote`]. Alongside the concrete state it carries a ghost
//! record of which identities voted for each candidate; the well-formedness
//! predicate ties every tally to that record, which is what bounds a tally
//! by the number of distinct supporters.

use vstd::prelude::*;

use crate::candidate::Candidate;
use crate::errors::Error;

verus! {

broadcast use vstd::std_specs::hash::group_hash_axioms;

/// Zero-payload notification that a vote was just recorded.
///
/// [`Voting::vote`] hands one back exactly when the ballot was accepted; the
/// caller delivers it to whoever listens. It deliberately carries neither
/// the voter nor the candidate.
#[derive(Clone, Copy, Debug, PartialEq, Eq, Structural)]
pub struct VoteCast {}

/// The tally after one more ballot: one higher, saturating at `u32::MAX`.
pub open spec fn bumped_tally(t: u32) -> u32 {
    if t == u32::MAX {
        u32::MAX
    } else {
        (t + 1) as u32
    }
}

/// The voting ledger: a fixed candidate roster, one vote per identity.
pub struct Voting {
    /// The roster, indexed by candidate id.
    candidates: Vec<Candidate>,
    /// Marker per identity: present and `true` once that identity has voted.
    /// A missing identity counts as "has not voted".
    votes: vstd::hash_map::HashMapWithView<u64, bool>,
    /// Number of candidates, fixed at construction. Kept as its own field:
    /// the roster is validated against this count, not the other way round.
    total_candidates: u32,
    /// Ghost record: for each candidate, the set of identities whose
    /// successful vote went to that candidate.
    supporter_sets: Ghost<Seq<Set<u64>>>,
}

impl Voting {
    /// The roster as a sequence, ordered by candidate id.
    pub closed spec fn roster(self) -> Seq<Candidate> {
        self.candidates@
    }

    /// The number of candidates fixed at initialization.
    pub closed spec fn candidate_count(self) -> nat {
        self.total_candidates as nat
    }

    /// Whether `id` has successfully cast a vote.
    pub closed spec fn spec_has_voted(self, id: u64) -> bool {
        self.votes@.contains_key(id) && self.votes@[id]
    }

    /// The current tally of candidate `c`.
    pub open spec fn tally(self, c: int) -> u32
        recommends
            0 <= c < self.roster().len(),
    {
        self.roster()[c].vote_count
    }

    /// The distinct identities whose successful vote went to candidate `c`.
    pub closed spec fn supporters(self, c: int) -> Set<u64> {
        self.supporter_sets@[c]
    }

    /// Everything well-formedness asks of one roster slot.
    spec fn slot_ok(self, c: int) -> bool {
        &&& self.candidates@[c].id == c
        &&& self.supporter_sets@[c].finite()
        &&& self.candidates@[c].vote_count as nat <= self.supporter_sets@[c].len()
        &&& forall|id: u64| #[trigger]
            self.supporter_sets@[c].contains(id) ==> self.spec_has_voted(id)
    }

    /// Well-formedness of the ledger: the candidate count matches the
    /// roster, identifiers are dense over `[0, total)`, and each tally is
    /// covered by a set of recorded supporters.
    pub closed spec fn wf(self) -> bool {
        &&& self.total_candidates == self.candidates@.len()
        &&& self.supporter_sets@.len() == self.candidates@.len()
        &&& forall|c: int| 0 <= c < self.candidates@.len() ==> #[trigger] self.slot_ok(c)
    }

    /// Builds the ledger from an ordered roster of candidate names.
    ///
    /// Each name receives the identifier equal to its position and a tally
    /// of zero; nobody has voted yet. Fails with `IdentifierOverflow`, and
    /// builds nothing, exactly when the roster holds more names than there
    /// are `u32` identifiers.
    pub fn new(names: Vec<String>) -> (result: Result<Voting, Error>)
        ensures
            result.is_ok() <==> names@.len() <= u32::MAX,
            result.is_err() ==> result == Err::<Voting, Error>(Error::IdentifierOverflow),
            result matches Ok(v) ==> {
                &&& v.wf()
                &&& v.candidate_count() == names@.len()
                &&& v.roster().len() == names@.len()
                &&& forall|i: int| 0 <= i < names@.len() ==> {
                    &&& (#[trigger] v.roster()[i]).id == i
                    &&& v.roster()[i].name == names@[i]
                    &&& v.roster()[i].vote_count == 0
                }
                &&& forall|id: u64| !v.spec_has_voted(id)
                &&& forall|c: int|
                    0 <= c < names@.len() ==> #[trigger] v.supporters(c) == Set::<u64>::empty()
            },
    {
        if names.len() > u32::MAX as usize {
            return Err(Error::IdentifierOverflow);
        }
        let total: u32 = names.len() as u32;
        let mut candidates: Vec<Candidate> = Vec::new();
        let mut i: usize = 0;
        while i < names.len()
            invariant
                i <= names@.len(),
                names@.len() <= u32::MAX,
                candidates@.len() == i,
                forall|j: int| 0 <= j < i ==> {
                    &&& (#[trigger] candidates@[j]).id == j
                    &&& candidates@[j].name == names@[j]
                    &&& candidates@[j].vote_count == 0
                },
            decreases names@.len() - i,
        {
            let entry = Candidate { id: i as u32, name: names[i].clone(), vote_count: 0 };
            candidates.push(entry);
            i = i + 1;
        }
        let votes: vstd::hash_map::HashMapWithView<u64, bool> =
            vstd::hash_map::HashMapWithView::new();
        let ghost supporter_sets = Seq::<Set<u64>>::new(
            names@.len(),
            |c: int| Set::<u64>::empty(),
        );
        let ledger = Voting { candidates, votes, total_candidates: total, supporter_sets: Ghost(supporter_sets) };
        proof {
            assert forall|c: int| 0 <= c < ledger.candidates@.len() implies #[trigger]
                ledger.slot_ok(c) by {
                assert(ledger.supporter_sets@[c] == Set::<u64>::empty());
            }
        }
        Ok(ledger)
    }

    /// Records one ballot: `voter` votes for `candidate_id`.
    ///
    /// The two checks run in this order: an identity that has voted fails
    /// with `AlreadyVoted`; an identifier at or past the candidate count
    /// fails with `InvalidCandidate`. A failed check changes nothing. An
    /// accepted ballot raises the chosen candidate's tally by one
    /// (saturating at `u32::MAX`), leaves every other candidate untouched,
    /// marks the voter permanently, and hands back the [`VoteCast`]
    /// notification for the caller to deliver.
    pub fn vote(&mut self, voter: u64, candidate_id: u32) -> (result: Result<VoteCast, Error>)
        requires
            old(self).wf(),
        ensures
            final(self).wf(),
            final(self).candidate_count() == old(self).candidate_count(),
            result.is_ok() <==> {
                &&& !old(self).spec_has_voted(voter)
                &&& candidate_id < old(self).candidate_count()
            },
            old(self).spec_has_voted(voter) ==> result == Err::<VoteCast, Error>(
                Error::AlreadyVoted,
            ),
            !old(self).spec_has_voted(voter) && candidate_id >= old(self).candidate_count()
                ==> result == Err::<VoteCast, Error>(Error::InvalidCandidate),
            result.is_err() ==> *final(self) == *old(self),
            result.is_ok() ==> {
                &&& result == Ok::<VoteCast, Error>(VoteCast {})
                &&& final(self).roster().len() == old(self).roster().len()
                &&& final(self).tally(candidate_id as int) == bumped_tally(
                    old(self).tally(candidate_id as int),
                )
                &&& final(self).roster()[candidate_id as int].id == old(self).roster()[
                    candidate_id as int
                ].id
                &&& final(self).roster()[candidate_id as int].name == old(self).roster()[
                    candidate_id as int
                ].name
                &&& forall|c: int|
                    0 <= c < old(self).roster().len() && c != candidate_id
                        ==> #[trigger] final(self).roster()[c] == old(self).roster()[c]
                &&& forall|id: u64| #[trigger]
                    final(self).spec_has_voted(id) <==> (old(self).spec_has_voted(id) || id
                        == voter)
                &&& final(self).supporters(candidate_id as int) == old(self).supporters(
                    candidate_id as int,
                ).insert(voter)
                &&& forall|c: int|
                    0 <= c < old(self).roster().len() && c != candidate_id
                        ==> #[trigger] final(self).supporters(c) == old(self).supporters(c)
            },
            forall|id: u64|
                old(self).spec_has_voted(id) ==> #[trigger] final(self).spec_has_voted(id),
            forall|c: int|
                0 <= c < old(self).roster().len()
                    ==> old(self).tally(c) <= #[trigger] final(self).tally(c),
    {
        if self.has_voted(voter) {
            return Err(Error::AlreadyVoted);
        }
        if candidate_id >= self.total_candidates {
            return Err(Error::InvalidCandidate);
        }
        let idx: usize = candidate_id as usize;
        if idx >= self.candidates.len() {
            // Defensive: the roster invariant makes this branch unreachable.
            return Err(Error::CandidateMissing);
        }
        let updated = Candidate {
            id: self.candidates[idx].id,
            name: self.candidates[idx].name.clone(),
            vote_count: self.candidates[idx].vote_count.saturating_add(1),
        };
        let ghost c = candidate_id as int;
        let ghost grown = self.supporter_sets@.update(
            c,
            self.supporter_sets@[c].insert(voter),
        );
        self.candidates[idx] = updated;
        self.votes.insert(voter, true);
        self.supporter_sets = Ghost(grown);
        proof {
            assert forall|d: int| 0 <= d < self.candidates@.len() implies #[trigger]
                self.slot_ok(d) by {
                assert(old(self).slot_ok(d));
            }
        }
        Ok(VoteCast {})
    }

    /// Returns a snapshot of the roster, ordered by candidate id, with the
    /// current tallies.
    pub fn get_candidates(&self) -> (roster: Vec<Candidate>)
        requires
            self.wf(),
        ensures
            roster@ == self.roster(),
    {
        let mut list: Vec<Candidate> = Vec::new();
        let mut i: u32 = 0;
        while i < self.total_candidates
            invariant
                self.wf(),
                i <= self.total_candidates,
                list@.len() == i,
                forall|j: int| 0 <= j < i ==> #[trigger] list@[j] == self.roster()[j],
            decreases self.total_candidates - i,
        {
            let idx: usize = i as usize;
            if idx < self.candidates.len() {
                list.push(self.candidates[idx].clone());
            }
            i = i + 1;
        }
        proof {
            assert(list@ =~= self.roster());
        }
        list
    }

    /// Whether `user` has already cast a vote. A never-seen identity has
    /// not voted; this query cannot fail.
    pub fn has_voted(&self, user: u64) -> (voted: bool)
        ensures
            voted == self.spec_has_voted(user),
    {
        match self.votes.get(&user) {
            Some(marker) => *marker,
            None => false,
        }
    }
}

/// Law: a candidate's tally never exceeds the number of distinct identities
/// that have successfully voted for that candidate, and every one of those
/// identities is recorded as having voted.
pub proof fn lemma_tally_bounded_by_supporters(v: &Voting, c: int)
    requires
        v.wf(),
        0 <= c < v.candidate_count(),
    ensures
        v.supporters(c).finite(),
        v.tally(c) as nat <= v.supporters(c).len(),
        forall|id: u64| #[trigger] v.supporters(c).contains(id) ==> v.spec_has_voted(id),
{
    assert(v.slot_ok(c));
}

/// Law: while no identity has voted, every tally is zero.
pub proof fn lemma_no_voters_no_tally(v: &Voting, c: int)
    requires
        v.wf(),
        0 <= c < v.candidate_count(),
        forall|id: u64| !v.spec_has_voted(id),
    ensures
        v.tally(c) == 0,
{
    assert(v.slot_ok(c));
    assert(v.supporters(c) =~= Set::<u64>::empty());
}

} // verus!
