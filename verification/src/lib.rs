//! Ledger-resident value-custody programs, modelled as pure verified state
//! machines: governance voting with fund release, escrow, time-locked vesting,
//! time-weighted staking rewards, and a small operation recorder.
//!
//! Every operation is a function from the current state, the caller-supplied
//! request values, and the invocation's single clock reading to either a new
//! state or an error, with no partial mutation on the error paths. Custody
//! moves go through the treasury module, which checks an explicit
//! authorization before any balance changes hands. Persistent storage and the
//! ledger runtime are collaborators at the boundary: they hand these functions
//! plain values and store what comes back.

pub mod calculator;
pub mod dao;
pub mod escrow;
pub mod power;
pub mod receipts;
pub mod staking;
pub mod treasury;
pub mod vesting;
