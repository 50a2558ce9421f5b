//! A single-election voting ledger.
//!
//! A fixed candidate roster is established once, each identity may cast
//! exactly one vote, and the current tally can be read at any time. The
//! ledger guards three things: candidate identifiers are dense over
//! `[0, total)` and the roster never changes after construction; an identity
//! that has voted can never vote again; and a candidate's tally never
//! exceeds the number of distinct identities that voted for it.

pub mod candidate;
pub mod errors;
pub mod ledger;

pub use candidate::Candidate;
pub use errors::Error;
pub use ledger::VoteCast;
pub use ledger::Voting;
