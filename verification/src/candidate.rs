//! One entry of the candidate roster.

use vstd::prelude::*;

verus! {

/// A candidate as the ledger stores and reports it.
///
/// The identifier equals the candidate's zero-based position in the roster
/// handed to [`crate::Voting::new`]; the name never changes afterwards, and
/// the tally only grows.
#[derive(Debug, PartialEq, Eq)]
pub struct Candidate {
    /// Dense identifier, the candidate's position in the initial roster.
    pub id: u32,
    /// Display name, fixed at initialization.
    pub name: String,
    /// Number of votes cast for this candidate so far.
    pub vote_count: u32,
}

impl Clone for Candidate {
    /// A clone carries the identifier, the name and the tally unchanged.
    fn clone(&self) -> (res: Self)
        ensures
            res == *self,
    {
        Candidate { id: self.id, name: self.name.clone(), vote_count: self.vote_count }
    }
}

} // verus!
