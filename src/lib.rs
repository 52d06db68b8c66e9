//! A reader/writer lease over a single atomic word that never blocks: each
//! operation either takes the lease or says at once why it could not.
use vstd::prelude::*;

pub mod atomic;
pub mod laws;
pub mod lease;
pub mod word;

pub use atomic::LeaseWord;
pub use lease::{DrainGuard, RWLease, ReadGuard, WriteGuard};

verus! {

/// Why a lease could not be taken.
#[derive(Clone, Copy, Debug, PartialEq, Eq, Structural)]
pub enum Blocked {
    /// The reader count is saturated: try again later.
    Readers,
    /// A writer holds the lease or waits for readers to leave.
    Writer,
    /// Another thread changed the word first: try again at once.
    LostRace,
}

} // verus!
