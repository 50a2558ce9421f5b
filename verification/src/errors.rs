//! The ways a ledger operation can fail.

use vstd::prelude::*;

verus! {

/// Failure taxonomy of the voting ledger.
#[derive(Clone, Copy, Debug, PartialEq, Eq, Structural)]
pub enum Error {
    /// The roster handed to [`crate::Voting::new`] holds more names than
    /// there are representable candidate identifiers; initialization is
    /// aborted entirely.
    IdentifierOverflow,
    /// The calling identity has already cast a vote; nothing changes.
    AlreadyVoted,
    /// The chosen candidate identifier is outside `[0, total_candidates)`;
    /// nothing changes.
    InvalidCandidate,
    /// An in-range candidate identifier had no entry in the roster. This
    /// signals ledger corruption; the roster invariant makes it unreachable.
    CandidateMissing,
}

} // verus!
