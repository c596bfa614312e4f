//! Gas metering for a Move virtual machine: cost schedules, their on-chain
//! name/value form, and a meter that charges every interpreter operation.
pub mod errors;
pub mod gen_block;
pub mod meter;
pub mod names;
pub mod params;
pub mod schedule;
pub mod units;
