//! Time-bounded, rule-constrained value commitments.
//!
//! A depositor locks an amount of an asset under a declared risk and duration
//! policy and receives a transferable ownership token for the position. The
//! commitment ledger tracks value changes, allocations of the locked value to
//! yield targets, rule violations, settlement and early exit; the token
//! registry tracks who owns each position and whether it is still open.
//!
//! Every item of this crate is verified. Each operation states, over a
//! mathematical value of the state it acts on, exactly when it is granted,
//! which error it reports otherwise, and how the state changes. A refused
//! operation changes nothing.
//!
//! The crate moves no assets, reads no clock and sends no events. An
//! operation takes the time and the caller as arguments; one that needs an
//! asset transfer first says which, and then takes the outcome of that
//! transfer; what is to be announced is kept until it is taken.
//!
//! - [`identity`], [`errors`], [`roster`]: parties, refusals, sets of parties.
//! - [`percent`]: the loss and the early-exit payout, exact for every input.
//! - [`rules`], [`commitment`], [`allocation`], [`transfer`]: the records and
//!   what they say of themselves.
//! - [`token`] and [`registry_state`]: the ownership token registry and its
//!   mathematical value.
//! - [`ledger`] and [`ledger_state`]: the commitment ledger and its
//!   mathematical value.
//! - [`laws`]: what holds whatever is asked of the ledger and the registry.
//! - [`dummy`]: stand-ins for the collaborators of the ledger.

pub mod identity;
pub mod errors;
pub mod roster;
pub mod percent;
pub mod rules;
pub mod commitment;
pub mod allocation;
pub mod transfer;
pub mod token;
pub mod registry_state;
pub mod ledger;
pub mod ledger_state;
pub mod laws;
pub mod dummy;
