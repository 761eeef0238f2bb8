//! Staking and yield-accrual engine for a ledger-resident token protocol.
//!
//! The crate models two kinds of pool records and their per-depositor
//! records: a staking pool, which tracks locked positions through a
//! stake / unbonding / withdrawal lifecycle, and a rewards pool, which
//! carries a dynamic annualized rate and settles time-proportional
//! rewards against per-depositor stake records. Every operation is a
//! single atomic state transition: it either returns `Ok` and applies
//! its full effect, or returns a named error and leaves all records
//! unchanged. Token custody movements, record addressing and the ledger
//! clock are the host runtime's concern; each operation takes the
//! current ledger tick as an argument and reports the amount that the
//! host must move when one is owed.

pub mod accrual;
pub mod rate;
pub mod rewards;
pub mod staking;
