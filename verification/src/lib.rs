//! A staking and reward ledger: depositors lock a base asset and accrue a
//! second asset over time at a configured rate, behind a mandatory
//! lock-up. The core tracks obligations and returns the outbound transfer
//! requests each command schedules; the surrounding runtime performs the
//! transfers asynchronously and reports back through the notification
//! entry points.

pub mod account;
pub mod farm;
pub mod interface;
pub mod keys;
pub mod ledger;
pub mod wide;
