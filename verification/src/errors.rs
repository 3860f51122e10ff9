//! The error taxonomy shared by all operations. Every failure is a local
//! validation failure surfaced before any state is written.

use vstd::prelude::*;

verus! {

#[derive(Clone, Copy, Debug, PartialEq, Eq, Structural)]
pub enum GameError {
    /// The supplied payment is below the required fee.
    Underpaid,
    /// The per-account hero limit (or the global id space) is exhausted.
    QuotaExceeded,
    /// The caller is not the entity's registered owner.
    NotOwner,
    /// A level / rarity / battle-count precondition was not satisfied.
    GateNotMet,
    /// The hero's five ability slots are all taken.
    AbilitySlotsFull,
    /// The hero already holds the requested ability.
    AbilityAlreadyUnlocked,
    /// The hero lacks the experience the operation requires.
    InsufficientExperience,
    /// A transfer names the current owner as the recipient.
    SelfTransfer,
    /// A transfer names the zero account as the recipient.
    InvalidRecipient,
    /// A privileged or cross-service call came from a non-allow-listed caller.
    Unauthorized,
    /// The global pause flag is active.
    Paused,
    /// No hero is stored under the given identifier.
    HeroNotFound,
}

} // verus!
